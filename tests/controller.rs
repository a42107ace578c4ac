use musicboom::controller::{icon_bitmap, Outcome, Stage, UpdateAction, UpdateSession, ICON_SIZE};
use musicboom::error::TaskbarError;
use musicboom::glyph::Glyph;
use musicboom::registry::WindowRegistry;

fn tip_text(tip: &[u16; 260]) -> String {
    let end = tip.iter().position(|&u| u == 0).unwrap();
    String::from_utf16(&tip[..end]).unwrap()
}

fn name(a: &UpdateAction) -> &'static str {
    match a {
        UpdateAction::InstallSubclass => "install",
        UpdateAction::AcquireTaskbarList => "acquire",
        UpdateAction::BuildIcon(_) => "icon",
        UpdateAction::AddButtons(_) => "add",
        UpdateAction::UpdateButtons(_) => "update",
        UpdateAction::SetTooltip(_) => "tooltip",
        UpdateAction::DestroyIcons => "destroy-icons",
        UpdateAction::EnableIconicThumbnail => "enable-iconic",
        UpdateAction::CreateThumbnailBitmap(_, _) => "create-thumbnail",
        UpdateAction::SetIconicThumbnail => "set-thumbnail",
        UpdateAction::DestroyThumbnailBitmap => "destroy-thumbnail",
        UpdateAction::Finish(_) => "finish",
    }
}

/// Runs a session to the end, answering each action with `answer`; returns the
/// actions and the result.
fn run(
    session: &mut UpdateSession,
    reg: &mut WindowRegistry,
    mut answer: impl FnMut(&UpdateAction) -> Outcome,
) -> (Vec<UpdateAction>, Result<(), TaskbarError>) {
    let mut actions = Vec::new();
    let mut outcome = Outcome::Succeeded;
    loop {
        let a = session.advance(reg, outcome);
        if let UpdateAction::Finish(r) = a {
            actions.push(a);
            return (actions, r);
        }
        outcome = answer(&a);
        actions.push(a);
    }
}

fn names(actions: &[UpdateAction]) -> Vec<&'static str> {
    actions.iter().map(name).collect()
}

#[test]
fn first_update_of_a_new_window() {
    let mut reg = WindowRegistry::new();
    let mut s = UpdateSession::new(Some(7), "main".to_string(), None, false, None);
    let (actions, result) = run(&mut s, &mut reg, |_| Outcome::Succeeded);
    assert_eq!(result, Ok(()));
    assert_eq!(
        names(&actions),
        vec![
            "install", "acquire", "icon", "icon", "icon", "add", "destroy-icons", "enable-iconic",
            "create-thumbnail", "set-thumbnail", "destroy-thumbnail", "finish"
        ]
    );
    assert_eq!(reg.label_of(7).as_deref(), Some("main"));
    assert!(reg.buttons_ready(7));
    match &actions[2] {
        UpdateAction::BuildIcon(b) => assert_eq!(b.glyph, Glyph::Prev),
        _ => unreachable!(),
    }
    match &actions[3] {
        UpdateAction::BuildIcon(b) => assert_eq!(b.glyph, Glyph::Play),
        _ => unreachable!(),
    }
    match &actions[5] {
        UpdateAction::AddButtons(row) => {
            let tips: Vec<String> = row.iter().map(|b| tip_text(&b.tip)).collect();
            assert_eq!(tips, vec!["Previous", "Play", "Next"]);
            assert_eq!(row.iter().map(|b| b.id).collect::<Vec<_>>(), vec![1, 2, 3]);
        },
        _ => unreachable!(),
    }
    match &actions[8] {
        UpdateAction::CreateThumbnailBitmap(h, px) => {
            assert_eq!((h.width, h.height), (120, -120));
            assert_eq!(px.len(), 120 * 120 * 4);
            assert!(px.chunks(4).all(|c| c == [30, 30, 30, 255]));
        },
        _ => unreachable!(),
    }
    assert_eq!(s.progress.stage, Stage::Finished);
    assert_eq!(s.progress.thumbnail, None);
}

#[test]
fn second_update_updates_instead_of_adding() {
    let mut reg = WindowRegistry::new();
    let mut first = UpdateSession::new(Some(7), "main".to_string(), None, false, None);
    let (a1, r1) = run(&mut first, &mut reg, |_| Outcome::Succeeded);
    assert_eq!(r1, Ok(()));
    assert!(names(&a1).contains(&"add") && !names(&a1).contains(&"update"));
    let mut second = UpdateSession::new(Some(7), "main".to_string(), None, true, Some("Song".to_string()));
    let (a2, r2) = run(&mut second, &mut reg, |_| Outcome::Succeeded);
    assert_eq!(r2, Ok(()));
    let n2 = names(&a2);
    assert!(!n2.contains(&"add") && n2.contains(&"update") && !n2.contains(&"install"));
    assert_eq!(n2[0], "acquire");
    let tooltip = a2.iter().find_map(|a| match a {
        UpdateAction::SetTooltip(b) => Some(*b),
        _ => None,
    });
    let b = tooltip.expect("a tooltip update");
    assert_eq!(b.id, 2);
    assert_eq!(b.icon, None);
    assert_eq!(tip_text(&b.tip), "Song");
    match a2.iter().find(|a| matches!(a, UpdateAction::UpdateButtons(_))) {
        Some(UpdateAction::UpdateButtons(row)) => assert_eq!(tip_text(&row[1].tip), "Pause"),
        _ => unreachable!(),
    }
}

#[test]
fn unknown_handle_fails_at_once() {
    let mut reg = WindowRegistry::new();
    let mut s = UpdateSession::new(None, "main".to_string(), None, false, None);
    let (actions, result) = run(&mut s, &mut reg, |_| Outcome::Succeeded);
    assert_eq!(names(&actions), vec!["finish"]);
    assert_eq!(result, Err(TaskbarError::HandleUnavailable));
}

#[test]
fn failed_filter_install_is_fatal_and_records_nothing() {
    let mut reg = WindowRegistry::new();
    let mut s = UpdateSession::new(Some(7), "main".to_string(), None, false, None);
    let (actions, result) = run(&mut s, &mut reg, |_| Outcome::Failed);
    assert_eq!(names(&actions), vec!["install", "finish"]);
    assert_eq!(result, Err(TaskbarError::SubclassInstallFailed));
    assert!(!reg.is_registered(7));
}

#[test]
fn failed_button_add_releases_icons_then_fails() {
    let mut reg = WindowRegistry::new();
    let mut s = UpdateSession::new(Some(7), "main".to_string(), None, false, None);
    let (actions, result) = run(&mut s, &mut reg, |a| {
        if matches!(a, UpdateAction::AddButtons(_)) { Outcome::Failed } else { Outcome::Succeeded }
    });
    assert_eq!(
        names(&actions),
        vec!["install", "acquire", "icon", "icon", "icon", "add", "destroy-icons", "finish"]
    );
    assert_eq!(result, Err(TaskbarError::ButtonOperationFailed));
    assert!(!reg.buttons_ready(7));
}

#[test]
fn failed_icon_after_the_first_releases_the_built_ones() {
    let mut reg = WindowRegistry::new();
    let mut s = UpdateSession::new(Some(7), "main".to_string(), None, false, None);
    let mut icons = 0;
    let (actions, result) = run(&mut s, &mut reg, |a| {
        if matches!(a, UpdateAction::BuildIcon(_)) {
            icons += 1;
            if icons == 2 {
                return Outcome::Failed;
            }
        }
        Outcome::Succeeded
    });
    assert_eq!(names(&actions), vec!["install", "acquire", "icon", "icon", "destroy-icons", "finish"]);
    assert_eq!(result, Err(TaskbarError::IconAssemblyFailed));
}

#[test]
fn failed_first_icon_has_nothing_to_release() {
    let mut reg = WindowRegistry::new();
    let mut s = UpdateSession::new(Some(7), "main".to_string(), None, false, None);
    let (actions, result) = run(&mut s, &mut reg, |a| {
        if matches!(a, UpdateAction::BuildIcon(_)) { Outcome::Failed } else { Outcome::Succeeded }
    });
    assert_eq!(names(&actions), vec!["install", "acquire", "icon", "finish"]);
    assert_eq!(result, Err(TaskbarError::IconAssemblyFailed));
}

#[test]
fn failed_taskbar_list_is_fatal() {
    let mut reg = WindowRegistry::new();
    let mut s = UpdateSession::new(Some(7), "main".to_string(), None, false, None);
    let (actions, result) = run(&mut s, &mut reg, |a| {
        if matches!(a, UpdateAction::AcquireTaskbarList) { Outcome::Failed } else { Outcome::Succeeded }
    });
    assert_eq!(names(&actions), vec!["install", "acquire", "finish"]);
    assert_eq!(result, Err(TaskbarError::ButtonOperationFailed));
}

#[test]
fn failed_title_still_releases_icons_and_fails() {
    let mut reg = WindowRegistry::new();
    let mut s = UpdateSession::new(Some(7), "main".to_string(), None, false, Some("T".to_string()));
    let (actions, result) = run(&mut s, &mut reg, |a| {
        if matches!(a, UpdateAction::SetTooltip(_)) { Outcome::Failed } else { Outcome::Succeeded }
    });
    assert_eq!(names(&actions)[5..], ["add", "tooltip", "destroy-icons", "finish"]);
    assert_eq!(result, Err(TaskbarError::ButtonOperationFailed));
    assert!(reg.buttons_ready(7));
}

#[test]
fn thumbnail_failures_are_absorbed() {
    let mut reg = WindowRegistry::new();
    let mut s = UpdateSession::new(Some(7), "main".to_string(), None, false, None);
    let (actions, result) = run(&mut s, &mut reg, |a| {
        if matches!(a, UpdateAction::EnableIconicThumbnail) { Outcome::Failed } else { Outcome::Succeeded }
    });
    assert_eq!(result, Ok(()));
    assert_eq!(names(&actions)[6..], ["destroy-icons", "enable-iconic", "finish"]);
    assert_eq!(s.progress.thumbnail, None);

    let mut s = UpdateSession::new(Some(7), "main".to_string(), None, false, None);
    let (actions, result) = run(&mut s, &mut reg, |a| {
        if matches!(a, UpdateAction::SetIconicThumbnail) { Outcome::Failed } else { Outcome::Succeeded }
    });
    assert_eq!(result, Ok(()));
    assert_eq!(names(&actions)[6..], ["enable-iconic", "create-thumbnail", "set-thumbnail", "destroy-thumbnail", "finish"]);
    assert_eq!(s.progress.thumbnail, Some(TaskbarError::ThumbnailRejected));

    let mut s = UpdateSession::new(Some(7), "main".to_string(), None, false, None);
    let (actions, result) = run(&mut s, &mut reg, |a| {
        if matches!(a, UpdateAction::CreateThumbnailBitmap(_, _)) { Outcome::Failed } else { Outcome::Succeeded }
    });
    assert_eq!(result, Ok(()));
    assert_eq!(names(&actions)[6..], ["enable-iconic", "create-thumbnail", "finish"]);
    assert_eq!(s.progress.thumbnail, Some(TaskbarError::SurfaceAllocationFailed));
}

#[test]
fn finished_session_keeps_its_result() {
    let mut reg = WindowRegistry::new();
    let mut s = UpdateSession::new(None, "main".to_string(), None, false, None);
    let _ = s.advance(&mut reg, Outcome::Succeeded);
    match s.advance(&mut reg, Outcome::Succeeded) {
        UpdateAction::Finish(r) => assert_eq!(r, Err(TaskbarError::HandleUnavailable)),
        _ => unreachable!(),
    }
}

#[test]
fn icon_bitmap_is_48_square_bgra() {
    let b = icon_bitmap(Glyph::Next);
    assert_eq!(ICON_SIZE, 48);
    assert_eq!((b.header.width, b.header.height), (48, -48));
    assert_eq!(b.header.size_image, 48 * 48 * 4);
    assert_eq!(b.pixels.len(), 48 * 48 * 4);
    let i = ((24 * 48 + 14) * 4) as usize;
    assert_eq!(&b.pixels[i..i + 4], &[255, 255, 255, 255]);
    assert_eq!(&b.pixels[0..4], &[0, 0, 0, 0]);
}
