use musicboom::buttons::{button_row, set_tip, title_button, BUTTON_NEXT, BUTTON_PLAY_OR_PAUSE, BUTTON_PREV};
use musicboom::error::{anyhow_to_string, TaskbarError};
use musicboom::glyph::Glyph;

fn text(tip: &[u16; 260]) -> String {
    let end = tip.iter().position(|&u| u == 0).unwrap();
    String::from_utf16(&tip[..end]).unwrap()
}

#[test]
fn tip_is_null_terminated_utf16() {
    let mut buf = [7u16; 260];
    set_tip(&mut buf, "Hé");
    assert_eq!(&buf[..4], &[0x48, 0xe9, 0, 7]);
}

#[test]
fn tip_encodes_surrogate_pairs() {
    let mut buf = [0u16; 260];
    set_tip(&mut buf, "a😀");
    assert_eq!(&buf[..4], &[0x61, 0xd83d, 0xde00, 0]);
}

#[test]
fn long_tip_is_cut_to_fit_its_terminator() {
    let mut buf = [0u16; 260];
    let long = "x".repeat(300);
    set_tip(&mut buf, &long);
    assert!(buf[..259].iter().all(|&u| u == 'x' as u16));
    assert_eq!(buf[259], 0);
    let mut buf = [5u16; 260];
    set_tip(&mut buf, &"y".repeat(259));
    assert_eq!(buf[258], 'y' as u16);
    assert_eq!(buf[259], 0);
}

#[test]
fn button_row_for_paused_player() {
    let row = button_row(false);
    assert_eq!(row.len(), 3);
    assert_eq!(row.iter().map(|b| b.id).collect::<Vec<_>>(), vec![BUTTON_PREV, BUTTON_PLAY_OR_PAUSE, BUTTON_NEXT]);
    assert_eq!(row.iter().map(|b| b.id).collect::<Vec<_>>(), vec![1, 2, 3]);
    assert_eq!(row[0].icon, Some(Glyph::Prev));
    assert_eq!(row[1].icon, Some(Glyph::Play));
    assert_eq!(row[2].icon, Some(Glyph::Next));
    assert!(row.iter().all(|b| b.enabled));
    assert_eq!(text(&row[0].tip), "Previous");
    assert_eq!(text(&row[1].tip), "Play");
    assert_eq!(text(&row[2].tip), "Next");
}

#[test]
fn button_row_for_playing_player() {
    let row = button_row(true);
    assert_eq!(row[1].icon, Some(Glyph::Pause));
    assert_eq!(text(&row[1].tip), "Pause");
}

#[test]
fn title_button_changes_only_the_tooltip() {
    let b = title_button("Song — Artist");
    assert_eq!(b.id, 2);
    assert_eq!(b.icon, None);
    assert!(b.enabled);
    assert_eq!(text(&b.tip), "Song — Artist");
}

#[test]
fn errors_render_as_their_debug_text() {
    assert_eq!(anyhow_to_string(TaskbarError::HandleUnavailable), "HandleUnavailable");
    assert_eq!(anyhow_to_string(TaskbarError::ButtonOperationFailed), "ButtonOperationFailed");
    assert_eq!(anyhow_to_string(TaskbarError::SizeMismatch), "SizeMismatch");
    for e in [
        TaskbarError::HandleUnavailable,
        TaskbarError::SubclassInstallFailed,
        TaskbarError::RegistryUnavailable,
        TaskbarError::SizeMismatch,
        TaskbarError::SurfaceAllocationFailed,
        TaskbarError::IconAssemblyFailed,
        TaskbarError::ButtonOperationFailed,
        TaskbarError::ThumbnailRejected,
    ] {
        assert_eq!(anyhow_to_string(e), format!("{:?}", e));
    }
}
