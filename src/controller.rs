use vstd::prelude::*;

use crate::bitmap::{bitmap_header, top_down_header, BitmapHeader};
use crate::buttons::{
    button_glyph, button_row, is_row_button, tip_field, title_button, ThumbButton,
    BUTTON_NEXT, BUTTON_PLAY_OR_PAUSE, BUTTON_PREV,
};
use crate::error::TaskbarError;
use crate::glyph::{glyph_bytes, render_glyph, Glyph};
use crate::registry::{without_label, WindowRegistry};
use crate::surface::{swap_red_blue, swapped_channels};
use crate::thumbnail::{compositor_image, compositor_thumbnail, cover_bytes};

verus! {

/// Width and height of a button icon.
pub const ICON_SIZE: u32 = 48;

/// The pixels and header of one button icon's color bitmap.
#[derive(Clone, Debug)]
pub struct IconBitmap {
    pub glyph: Glyph,
    pub header: BitmapHeader,
    pub pixels: Vec<u8>,
}

/// The icon bitmap of `glyph`: its 48 by 48 canvas in BGRA, described top-down.
pub open spec fn is_icon_bitmap(b: IconBitmap, glyph: Glyph) -> bool {
    &&& b.glyph == glyph
    &&& b.header == top_down_header(ICON_SIZE as i32, ICON_SIZE as i32)
    &&& b.pixels@ == swapped_channels(glyph_bytes(glyph, ICON_SIZE as int))
}

/// Renders a button icon and describes it as a bitmap.
pub fn icon_bitmap(glyph: Glyph) -> (r: IconBitmap)
    ensures
        is_icon_bitmap(r, glyph),
{
    let canvas = render_glyph(glyph, ICON_SIZE);
    let pixels = swap_red_blue(&canvas);
    let header = bitmap_header(pixels.as_slice(), ICON_SIZE as i32, ICON_SIZE as i32).unwrap();
    IconBitmap { glyph, header, pixels }
}

/// Where an update of one window's taskbar entry stands.
#[derive(Clone, Copy, Debug, PartialEq, Eq, Structural)]
pub enum Stage {
    /// Nothing asked yet.
    Start,
    /// The message filter is being installed.
    Registering,
    /// The taskbar list interface is being obtained.
    AcquiringList,
    /// One of the three icons is being built.
    BuildingIcons,
    /// The button row is being added or updated.
    PlacingButtons,
    /// The play/pause tooltip is being set to the title.
    SettingTitle,
    /// The icons are being destroyed.
    ReleasingIcons,
    /// The window is being opted into custom thumbnails.
    EnablingIconic,
    /// The thumbnail bitmap is being allocated.
    CreatingThumbnail,
    /// The thumbnail is being handed to the compositor.
    SettingThumbnail,
    /// The thumbnail bitmap is being destroyed.
    ReleasingThumbnail,
    /// The update is over.
    Finished,
}

/// How the platform call that the last action asked for went.
#[derive(Clone, Copy, Debug, PartialEq, Eq, Structural)]
pub enum Outcome {
    Succeeded,
    Failed,
}

/// The progress of an update: its stage, how many icons exist, whether the row is
/// being added (not updated), the error that waits for the icons to be released, the
/// thumbnail failure that was absorbed (reported here, never in the result), and the
/// result once finished.
#[derive(Clone, Copy, Debug)]
pub struct Progress {
    pub stage: Stage,
    pub icons_built: u8,
    pub adding: bool,
    pub pending: Option<TaskbarError>,
    pub thumbnail: Option<TaskbarError>,
    pub result: Result<(), TaskbarError>,
}

/// The next platform call for the caller to make, or the end of the update.
#[derive(Debug)]
pub enum UpdateAction {
    /// Install the message filter on the window.
    InstallSubclass,
    /// Obtain (creating on first use) the taskbar list interface.
    AcquireTaskbarList,
    /// Build an icon from the color bitmap and an opaque mask of the same size.
    BuildIcon(IconBitmap),
    /// Add the button row, each button with the icon built for its glyph.
    AddButtons(Vec<ThumbButton>),
    /// Update the existing button row, each button with the icon built for its glyph.
    UpdateButtons(Vec<ThumbButton>),
    /// Update one button's tooltip and flags only.
    SetTooltip(ThumbButton),
    /// Destroy every icon built during this update.
    DestroyIcons,
    /// Set the window attributes that ask for custom iconic thumbnails.
    EnableIconicThumbnail,
    /// Allocate a bitmap with this header and copy the pixels into it.
    CreateThumbnailBitmap(BitmapHeader, Vec<u8>),
    /// Hand the bitmap to the compositor as the window's thumbnail.
    SetIconicThumbnail,
    /// Destroy the thumbnail bitmap.
    DestroyThumbnailBitmap,
    /// The update is over with this result.
    Finish(Result<(), TaskbarError>),
}

/// One update of a window's taskbar entry: the request, and how far it has got.
///
/// The caller performs each action the session returns and reports how it went;
/// the session decides what comes next.
#[derive(Clone, Debug)]
pub struct UpdateSession {
    pub hwnd: Option<isize>,
    pub label: String,
    pub cover: Option<Vec<u8>>,
    pub is_playing: bool,
    pub title: Option<String>,
    pub progress: Progress,
}

/// The progress of a session that has not asked for anything yet.
pub open spec fn initial_progress() -> Progress {
    Progress {
        stage: Stage::Start,
        icons_built: 0,
        adding: false,
        pending: None,
        thumbnail: None,
        result: Ok(()),
    }
}

/// A finished update.
pub open spec fn finished(p: Progress, result: Result<(), TaskbarError>) -> Progress {
    Progress {
        stage: Stage::Finished,
        icons_built: 0,
        adding: p.adding,
        pending: None,
        thumbnail: p.thumbnail,
        result,
    }
}

/// `p` moved to `stage`, everything else kept.
pub open spec fn at_stage(p: Progress, stage: Stage) -> Progress {
    Progress { stage, ..p }
}

/// The compositor thumbnail of the cover can be described to the platform.
pub open spec fn thumbnail_describable(cover: Option<Seq<u8>>) -> bool {
    let img = compositor_image(cover);
    &&& 0 < img.0 <= i32::MAX
    &&& 0 < img.1 <= i32::MAX
    &&& img.2.len() <= u32::MAX
}

/// The progress after the caller reports `outcome` for the current stage's action.
///
/// Registration, the taskbar list, the icons and the button row are required: a
/// failure there ends the update with an error, once the icons built so far are
/// destroyed. The thumbnail is best effort: a failure there ends the update with
/// success, and the failure is kept in the progress: an image that cannot be described
/// or allocated as `SurfaceAllocationFailed`, a refusal by the compositor as
/// `ThumbnailRejected`. A thumbnail bitmap, once allocated, is always destroyed.
pub open spec fn next_progress(
    p: Progress,
    hwnd: Option<isize>,
    labels: Map<isize, Seq<char>>,
    ready: Set<isize>,
    has_title: bool,
    cover: Option<Seq<u8>>,
    outcome: Outcome,
) -> Progress {
    let ok = outcome == Outcome::Succeeded;
    match p.stage {
        Stage::Start => match hwnd {
            None => finished(p, Err(TaskbarError::HandleUnavailable)),
            Some(h) => if labels.contains_key(h) {
                at_stage(p, Stage::AcquiringList)
            } else {
                at_stage(p, Stage::Registering)
            },
        },
        Stage::Registering => if ok {
            at_stage(p, Stage::AcquiringList)
        } else {
            finished(p, Err(TaskbarError::SubclassInstallFailed))
        },
        Stage::AcquiringList => if ok {
            Progress { stage: Stage::BuildingIcons, icons_built: 0, ..p }
        } else {
            finished(p, Err(TaskbarError::ButtonOperationFailed))
        },
        Stage::BuildingIcons => if ok {
            if p.icons_built + 1 < 3 {
                Progress { icons_built: (p.icons_built + 1) as u8, ..p }
            } else {
                Progress {
                    stage: Stage::PlacingButtons,
                    icons_built: 3,
                    adding: !ready.contains(hwnd.unwrap()),
                    ..p
                }
            }
        } else if p.icons_built == 0 {
            finished(p, Err(TaskbarError::IconAssemblyFailed))
        } else {
            Progress {
                stage: Stage::ReleasingIcons,
                pending: Some(TaskbarError::IconAssemblyFailed),
                ..p
            }
        },
        Stage::PlacingButtons => if !ok {
            Progress {
                stage: Stage::ReleasingIcons,
                pending: Some(TaskbarError::ButtonOperationFailed),
                ..p
            }
        } else if has_title {
            at_stage(p, Stage::SettingTitle)
        } else {
            at_stage(p, Stage::ReleasingIcons)
        },
        Stage::SettingTitle => if ok {
            at_stage(p, Stage::ReleasingIcons)
        } else {
            Progress {
                stage: Stage::ReleasingIcons,
                pending: Some(TaskbarError::ButtonOperationFailed),
                ..p
            }
        },
        Stage::ReleasingIcons => match p.pending {
            Some(e) => finished(p, Err(e)),
            None => Progress { stage: Stage::EnablingIconic, icons_built: 0, ..p },
        },
        Stage::EnablingIconic => if !ok {
            finished(p, Ok(()))
        } else if thumbnail_describable(cover) {
            at_stage(p, Stage::CreatingThumbnail)
        } else {
            finished(
                Progress { thumbnail: Some(TaskbarError::SurfaceAllocationFailed), ..p },
                Ok(()),
            )
        },
        Stage::CreatingThumbnail => if ok {
            at_stage(p, Stage::SettingThumbnail)
        } else {
            finished(
                Progress { thumbnail: Some(TaskbarError::SurfaceAllocationFailed), ..p },
                Ok(()),
            )
        },
        Stage::SettingThumbnail => if ok {
            at_stage(p, Stage::ReleasingThumbnail)
        } else {
            Progress {
                stage: Stage::ReleasingThumbnail,
                thumbnail: Some(TaskbarError::ThumbnailRejected),
                ..p
            }
        },
        Stage::ReleasingThumbnail => finished(p, Ok(())),
        Stage::Finished => p,
    }
}

/// The registry's labels after the step: a window whose filter was just installed is
/// recorded, replacing any stale window under its label.
pub open spec fn next_labels(
    p: Progress,
    hwnd: Option<isize>,
    label: Seq<char>,
    labels: Map<isize, Seq<char>>,
    outcome: Outcome,
) -> Map<isize, Seq<char>> {
    if p.stage == Stage::Registering && outcome == Outcome::Succeeded && !labels.contains_key(
        hwnd.unwrap(),
    ) {
        without_label(labels, label).insert(hwnd.unwrap(), label)
    } else {
        labels
    }
}

/// The registry's ready windows after the step: a stale window replaced at
/// registration leaves the set, and a window whose row was just added enters it.
pub open spec fn next_ready(
    p: Progress,
    hwnd: Option<isize>,
    label: Seq<char>,
    labels: Map<isize, Seq<char>>,
    ready: Set<isize>,
    outcome: Outcome,
) -> Set<isize> {
    if p.stage == Stage::Registering && outcome == Outcome::Succeeded && !labels.contains_key(
        hwnd.unwrap(),
    ) {
        ready.filter(|h: isize| labels[h] != label)
    } else if p.stage == Stage::PlacingButtons && outcome == Outcome::Succeeded && p.adding
        && labels.contains_key(hwnd.unwrap()) {
        ready.insert(hwnd.unwrap())
    } else {
        ready
    }
}

/// `a` is the action that the session's stage calls for.
pub open spec fn is_action_for(a: UpdateAction, s: UpdateSession) -> bool {
    let p = s.progress;
    match p.stage {
        Stage::Start => false,
        Stage::Registering => a is InstallSubclass,
        Stage::AcquiringList => a is AcquireTaskbarList,
        Stage::BuildingIcons => match a {
            UpdateAction::BuildIcon(b) => is_icon_bitmap(
                b,
                button_glyph((p.icons_built + 1) as u32, s.is_playing),
            ),
            _ => false,
        },
        Stage::PlacingButtons => match a {
            UpdateAction::AddButtons(row) => p.adding && is_button_row(row@, s.is_playing),
            UpdateAction::UpdateButtons(row) => !p.adding && is_button_row(row@, s.is_playing),
            _ => false,
        },
        Stage::SettingTitle => match a {
            UpdateAction::SetTooltip(b) => s.title is Some && b.id == BUTTON_PLAY_OR_PAUSE
                && b.icon is None && b.enabled && b.tip@ == tip_field(s.title.unwrap()@),
            _ => false,
        },
        Stage::ReleasingIcons => a is DestroyIcons,
        Stage::EnablingIconic => a is EnableIconicThumbnail,
        Stage::CreatingThumbnail => match a {
            UpdateAction::CreateThumbnailBitmap(h, px) => {
                let img = compositor_image(cover_bytes(s.cover));
                h == top_down_header(img.0 as i32, img.1 as i32) && px@ == img.2
            },
            _ => false,
        },
        Stage::SettingThumbnail => a is SetIconicThumbnail,
        Stage::ReleasingThumbnail => a is DestroyThumbnailBitmap,
        Stage::Finished => a == UpdateAction::Finish(p.result),
    }
}

/// The three transport buttons for the playing state.
pub open spec fn is_button_row(row: Seq<ThumbButton>, is_playing: bool) -> bool {
    &&& row.len() == 3
    &&& is_row_button(row[0], BUTTON_PREV, is_playing)
    &&& is_row_button(row[1], BUTTON_PLAY_OR_PAUSE, is_playing)
    &&& is_row_button(row[2], BUTTON_NEXT, is_playing)
}

impl UpdateSession {
    /// A session that has not asked for anything yet. `hwnd` is the window's native
    /// identity, or `None` when it could not be obtained.
    pub fn new(
        hwnd: Option<isize>,
        label: String,
        cover: Option<Vec<u8>>,
        is_playing: bool,
        title: Option<String>,
    ) -> (r: UpdateSession)
        ensures
            r.wf(),
            r.hwnd == hwnd,
            r.label == label,
            r.cover == cover,
            r.is_playing == is_playing,
            r.title == title,
            r.progress == initial_progress(),
    {
        UpdateSession {
            hwnd,
            label,
            cover,
            is_playing,
            title,
            progress: Progress {
                stage: Stage::Start,
                icons_built: 0,
                adding: false,
                pending: None,
                thumbnail: None,
                result: Ok(()),
            },
        }
    }

    /// Past the start, the window's identity is known, and at most three icons exist.
    pub open spec fn wf(&self) -> bool {
        &&& self.progress.icons_built <= 3
        &&& self.progress.stage == Stage::BuildingIcons ==> self.progress.icons_built < 3
        &&& (self.progress.stage == Stage::Start || self.progress.stage == Stage::Finished
            || self.hwnd is Some)
    }

    /// Takes the outcome of the last action (ignored at the start, and where the
    /// outcome changes nothing, as when destroying), moves on, and returns the next
    /// action. The registry records the window once its filter is installed, and its
    /// row as ready once added.
    pub fn advance(&mut self, registry: &mut WindowRegistry, outcome: Outcome) -> (r: UpdateAction)
        requires
            old(self).wf(),
            old(registry).wf(),
        ensures
            final(self).wf(),
            final(registry).wf(),
            final(self).hwnd == old(self).hwnd,
            final(self).label == old(self).label,
            final(self).cover == old(self).cover,
            final(self).is_playing == old(self).is_playing,
            final(self).title == old(self).title,
            final(self).progress == next_progress(
                old(self).progress,
                old(self).hwnd,
                old(registry).labels(),
                old(registry).ready(),
                old(self).title is Some,
                cover_bytes(old(self).cover),
                outcome,
            ),
            final(registry).labels() == next_labels(
                old(self).progress,
                old(self).hwnd,
                old(self).label@,
                old(registry).labels(),
                outcome,
            ),
            final(registry).ready() == next_ready(
                old(self).progress,
                old(self).hwnd,
                old(self).label@,
                old(registry).labels(),
                old(registry).ready(),
                outcome,
            ),
            is_action_for(r, *final(self)),
    {
        let ok = outcome == Outcome::Succeeded;
        let p = self.progress;
        match p.stage {
            Stage::Start => match self.hwnd {
                None => {
                    self.finish(Err(TaskbarError::HandleUnavailable));
                    UpdateAction::Finish(Err(TaskbarError::HandleUnavailable))
                },
                Some(h) => {
                    if registry.is_registered(h) {
                        self.progress.stage = Stage::AcquiringList;
                        UpdateAction::AcquireTaskbarList
                    } else {
                        self.progress.stage = Stage::Registering;
                        UpdateAction::InstallSubclass
                    }
                },
            },
            Stage::Registering => {
                if ok {
                    let h = self.hwnd.unwrap();
                    if !registry.is_registered(h) {
                        registry.record(h, self.label.clone());
                    }
                    self.progress.stage = Stage::AcquiringList;
                    UpdateAction::AcquireTaskbarList
                } else {
                    self.finish(Err(TaskbarError::SubclassInstallFailed));
                    UpdateAction::Finish(Err(TaskbarError::SubclassInstallFailed))
                }
            },
            Stage::AcquiringList => {
                if ok {
                    self.progress.stage = Stage::BuildingIcons;
                    self.progress.icons_built = 0;
                    UpdateAction::BuildIcon(icon_bitmap(Glyph::Prev))
                } else {
                    self.finish(Err(TaskbarError::ButtonOperationFailed));
                    UpdateAction::Finish(Err(TaskbarError::ButtonOperationFailed))
                }
            },
            Stage::BuildingIcons => {
                if ok {
                    if p.icons_built + 1 < 3 {
                        self.progress.icons_built = p.icons_built + 1;
                        let glyph = if p.icons_built + 1 == 1 {
                            if self.is_playing {
                                Glyph::Pause
                            } else {
                                Glyph::Play
                            }
                        } else {
                            Glyph::Next
                        };
                        UpdateAction::BuildIcon(icon_bitmap(glyph))
                    } else {
                        let ready = registry.buttons_ready(self.hwnd.unwrap());
                        self.progress.stage = Stage::PlacingButtons;
                        self.progress.icons_built = 3;
                        self.progress.adding = !ready;
                        let row = button_row(self.is_playing);
                        if ready {
                            UpdateAction::UpdateButtons(row)
                        } else {
                            UpdateAction::AddButtons(row)
                        }
                    }
                } else if p.icons_built == 0 {
                    self.finish(Err(TaskbarError::IconAssemblyFailed));
                    UpdateAction::Finish(Err(TaskbarError::IconAssemblyFailed))
                } else {
                    self.progress.stage = Stage::ReleasingIcons;
                    self.progress.pending = Some(TaskbarError::IconAssemblyFailed);
                    UpdateAction::DestroyIcons
                }
            },
            Stage::PlacingButtons => {
                if !ok {
                    self.progress.stage = Stage::ReleasingIcons;
                    self.progress.pending = Some(TaskbarError::ButtonOperationFailed);
                    UpdateAction::DestroyIcons
                } else {
                    let h = self.hwnd.unwrap();
                    if p.adding && registry.is_registered(h) {
                        registry.mark_buttons_ready(h);
                    }
                    match &self.title {
                        Some(t) => {
                            let b = title_button(t.as_str());
                            self.progress.stage = Stage::SettingTitle;
                            UpdateAction::SetTooltip(b)
                        },
                        None => {
                            self.progress.stage = Stage::ReleasingIcons;
                            UpdateAction::DestroyIcons
                        },
                    }
                }
            },
            Stage::SettingTitle => {
                if !ok {
                    self.progress.pending = Some(TaskbarError::ButtonOperationFailed);
                }
                self.progress.stage = Stage::ReleasingIcons;
                UpdateAction::DestroyIcons
            },
            Stage::ReleasingIcons => match p.pending {
                Some(e) => {
                    self.finish(Err(e));
                    UpdateAction::Finish(Err(e))
                },
                None => {
                    self.progress.stage = Stage::EnablingIconic;
                    self.progress.icons_built = 0;
                    UpdateAction::EnableIconicThumbnail
                },
            },
            Stage::EnablingIconic => {
                if ok {
                    let thumb = compositor_thumbnail(&self.cover);
                    if thumb.width <= i32::MAX as u32 && thumb.height <= i32::MAX as u32 {
                        match bitmap_header(thumb.data.as_slice(), thumb.width as i32, thumb.height as i32) {
                            Ok(header) => {
                                self.progress.stage = Stage::CreatingThumbnail;
                                return UpdateAction::CreateThumbnailBitmap(header, thumb.data);
                            },
                            Err(_) => {},
                        }
                    }
                    self.progress.thumbnail = Some(TaskbarError::SurfaceAllocationFailed);
                }
                self.finish(Ok(()));
                UpdateAction::Finish(Ok(()))
            },
            Stage::CreatingThumbnail => {
                if ok {
                    self.progress.stage = Stage::SettingThumbnail;
                    UpdateAction::SetIconicThumbnail
                } else {
                    self.progress.thumbnail = Some(TaskbarError::SurfaceAllocationFailed);
                    self.finish(Ok(()));
                    UpdateAction::Finish(Ok(()))
                }
            },
            Stage::SettingThumbnail => {
                if !ok {
                    self.progress.thumbnail = Some(TaskbarError::ThumbnailRejected);
                }
                self.progress.stage = Stage::ReleasingThumbnail;
                UpdateAction::DestroyThumbnailBitmap
            },
            Stage::ReleasingThumbnail => {
                self.finish(Ok(()));
                UpdateAction::Finish(Ok(()))
            },
            Stage::Finished => UpdateAction::Finish(p.result),
        }
    }

    fn finish(&mut self, result: Result<(), TaskbarError>)
        ensures
            final(self).progress == finished(old(self).progress, result),
            final(self).hwnd == old(self).hwnd,
            final(self).label == old(self).label,
            final(self).cover == old(self).cover,
            final(self).is_playing == old(self).is_playing,
            final(self).title == old(self).title,
    {
        self.progress = Progress {
            stage: Stage::Finished,
            icons_built: 0,
            adding: self.progress.adding,
            pending: None,
            thumbnail: self.progress.thumbnail,
            result,
        };
    }
}

/// The icons exist while the row is being built and placed.
pub open spec fn holds_icons(stage: Stage) -> bool {
    stage == Stage::BuildingIcons || stage == Stage::PlacingButtons || stage == Stage::SettingTitle
}

/// The first update of a window whose row does not exist yet adds the row once the
/// third icon is built, and a successful add marks the window ready.
pub proof fn lemma_first_update_adds(
    p: Progress,
    w: isize,
    label: Seq<char>,
    labels: Map<isize, Seq<char>>,
    ready: Set<isize>,
    has_title: bool,
    cover: Option<Seq<u8>>,
)
    requires
        p.stage == Stage::BuildingIcons,
        p.icons_built == 2,
        !ready.contains(w),
        labels.contains_key(w),
    ensures
        ({
            let placing = next_progress(p, Some(w), labels, ready, has_title, cover, Outcome::Succeeded);
            &&& placing.stage == Stage::PlacingButtons
            &&& placing.adding
            &&& next_ready(placing, Some(w), label, labels, ready, Outcome::Succeeded).contains(w)
            &&& next_labels(placing, Some(w), label, labels, Outcome::Succeeded) == labels
        }),
{
}

/// Once a window's row exists, no step of an update of that window adds the row
/// again, and the window stays registered and ready whatever the platform reports.
pub proof fn lemma_ready_window_never_adds(
    p: Progress,
    w: isize,
    label: Seq<char>,
    labels: Map<isize, Seq<char>>,
    ready: Set<isize>,
    has_title: bool,
    cover: Option<Seq<u8>>,
    outcome: Outcome,
)
    requires
        ready.contains(w),
        ready.subset_of(labels.dom()),
    ensures
        ({
            let q = next_progress(p, Some(w), labels, ready, has_title, cover, outcome);
            q.stage == Stage::PlacingButtons && p.stage != Stage::PlacingButtons ==> !q.adding
        }),
        next_ready(p, Some(w), label, labels, ready, outcome).contains(w),
        next_labels(p, Some(w), label, labels, outcome) == labels,
{
}

/// No step abandons a handle: while icons exist the update moves on only to more icon
/// work or to destroying them, and a thumbnail bitmap handed to the compositor is
/// destroyed next, whatever the compositor reported.
pub proof fn lemma_handles_released(
    p: Progress,
    hwnd: Option<isize>,
    labels: Map<isize, Seq<char>>,
    ready: Set<isize>,
    has_title: bool,
    cover: Option<Seq<u8>>,
    outcome: Outcome,
)
    ensures
        ({
            let q = next_progress(p, hwnd, labels, ready, has_title, cover, outcome);
            &&& holds_icons(p.stage) && p.icons_built > 0 ==> holds_icons(q.stage) || q.stage
                == Stage::ReleasingIcons
            &&& p.stage == Stage::CreatingThumbnail && outcome == Outcome::Succeeded ==> q.stage
                == Stage::SettingThumbnail
            &&& p.stage == Stage::SettingThumbnail ==> q.stage == Stage::ReleasingThumbnail
        }),
{
}

/// The progress after each of a series of steps with the given outcomes, and the
/// registry's labels and ready windows after the last.
pub open spec fn run_steps(
    p: Progress,
    hwnd: Option<isize>,
    label: Seq<char>,
    labels: Map<isize, Seq<char>>,
    ready: Set<isize>,
    has_title: bool,
    cover: Option<Seq<u8>>,
    outcomes: Seq<Outcome>,
) -> (Seq<Progress>, Map<isize, Seq<char>>, Set<isize>)
    decreases outcomes.len(),
{
    if outcomes.len() == 0 {
        (Seq::empty(), labels, ready)
    } else {
        let o = outcomes[0];
        let q = next_progress(p, hwnd, labels, ready, has_title, cover, o);
        let rest = run_steps(
            q,
            hwnd,
            label,
            next_labels(p, hwnd, label, labels, o),
            next_ready(p, hwnd, label, labels, ready, o),
            has_title,
            cover,
            outcomes.subrange(1, outcomes.len() as int),
        );
        (seq![q] + rest.0, rest.1, rest.2)
    }
}

/// The step adds the window's button row.
pub open spec fn adds_row(p: Progress) -> bool {
    p.stage == Stage::PlacingButtons && p.adding
}

/// Over any series of outcomes, an update of a window whose row exists never adds the
/// row, and the window stays ready.
pub proof fn lemma_run_never_adds(
    p: Progress,
    w: isize,
    label: Seq<char>,
    labels: Map<isize, Seq<char>>,
    ready: Set<isize>,
    has_title: bool,
    cover: Option<Seq<u8>>,
    outcomes: Seq<Outcome>,
)
    requires
        ready.contains(w),
        ready.subset_of(labels.dom()),
        !adds_row(p),
    ensures
        ({
            let run = run_steps(p, Some(w), label, labels, ready, has_title, cover, outcomes);
            &&& run.0.len() == outcomes.len()
            &&& forall|i: int| 0 <= i < run.0.len() ==> !adds_row(#[trigger] run.0[i])
            &&& run.2.contains(w)
        }),
    decreases outcomes.len(),
{
    if outcomes.len() > 0 {
        let o = outcomes[0];
        let q = next_progress(p, Some(w), labels, ready, has_title, cover, o);
        let l2 = next_labels(p, Some(w), label, labels, o);
        let r2 = next_ready(p, Some(w), label, labels, ready, o);
        lemma_ready_window_never_adds(p, w, label, labels, ready, has_title, cover, o);
        assert(r2.subset_of(l2.dom()));
        let tail = outcomes.subrange(1, outcomes.len() as int);
        lemma_run_never_adds(q, w, label, l2, r2, has_title, cover, tail);
        let rest = run_steps(q, Some(w), label, l2, r2, has_title, cover, tail);
        let run = run_steps(p, Some(w), label, labels, ready, has_title, cover, outcomes);
        assert(run.0 == seq![q] + rest.0);
        assert forall|i: int| 0 <= i < run.0.len() implies !adds_row(#[trigger] run.0[i]) by {
            if i > 0 {
                assert(run.0[i] == rest.0[i - 1]);
            }
        }
    }
}

/// A run has one progress per outcome.
pub proof fn lemma_run_len(
    p: Progress,
    hwnd: Option<isize>,
    label: Seq<char>,
    labels: Map<isize, Seq<char>>,
    ready: Set<isize>,
    has_title: bool,
    cover: Option<Seq<u8>>,
    outcomes: Seq<Outcome>,
)
    ensures
        run_steps(p, hwnd, label, labels, ready, has_title, cover, outcomes).0.len()
            == outcomes.len(),
    decreases outcomes.len(),
{
    if outcomes.len() > 0 {
        let o = outcomes[0];
        lemma_run_len(
            next_progress(p, hwnd, labels, ready, has_title, cover, o),
            hwnd,
            label,
            next_labels(p, hwnd, label, labels, o),
            next_ready(p, hwnd, label, labels, ready, o),
            has_title,
            cover,
            outcomes.subrange(1, outcomes.len() as int),
        );
    }
}

/// Two updates of a new window in a row: the first, with every platform call
/// succeeding, adds the button row and leaves the window ready; the second, whatever
/// the platform reports, never adds the row again, and when its calls succeed it
/// reaches the row with an update.
pub proof fn lemma_two_updates(
    w: isize,
    label: Seq<char>,
    labels: Map<isize, Seq<char>>,
    ready: Set<isize>,
    first_title: bool,
    first_cover: Option<Seq<u8>>,
    second_title: bool,
    second_cover: Option<Seq<u8>>,
    later: Seq<Outcome>,
)
    requires
        !labels.contains_key(w),
        ready.subset_of(labels.dom()),
    ensures
        ({
            let all_ok = Seq::new(7, |i: int| Outcome::Succeeded);
            let first = run_steps(
                initial_progress(),
                Some(w),
                label,
                labels,
                ready,
                first_title,
                first_cover,
                all_ok,
            );
            let second = run_steps(
                initial_progress(),
                Some(w),
                label,
                first.1,
                first.2,
                second_title,
                second_cover,
                later,
            );
            &&& adds_row(first.0[5])
            &&& first.2.contains(w)
            &&& forall|i: int| 0 <= i < second.0.len() ==> !adds_row(#[trigger] second.0[i])
            &&& (later.len() >= 5 && (forall|i: int| 0 <= i < 5 ==> later[i] == Outcome::Succeeded))
                ==> second.0[4].stage == Stage::PlacingButtons
        }),
{
    let all_ok = Seq::new(7, |i: int| Outcome::Succeeded);
    let p0 = initial_progress();
    let h = Some(w);
    reveal_with_fuel(run_steps, 8);
    let first = run_steps(p0, h, label, labels, ready, first_title, first_cover, all_ok);
    assert(adds_row(first.0[5]));
    assert(first.2.contains(w));
    assert(first.2.subset_of(first.1.dom()));
    lemma_run_never_adds(p0, w, label, first.1, first.2, second_title, second_cover, later);
    if later.len() >= 5 && (forall|i: int| 0 <= i < 5 ==> later[i] == Outcome::Succeeded) {
        let second = run_steps(p0, h, label, first.1, first.2, second_title, second_cover, later);
        assert(first.1.contains_key(w));
        lemma_run_len(p0, h, label, first.1, first.2, second_title, second_cover, later);
        assert(second.0[4].stage == Stage::PlacingButtons);
    }
}

/// The order in which an update passes through its stages.
pub open spec fn stage_rank(stage: Stage) -> int {
    match stage {
        Stage::Start => 0,
        Stage::Registering => 1,
        Stage::AcquiringList => 2,
        Stage::BuildingIcons => 3,
        Stage::PlacingButtons => 4,
        Stage::SettingTitle => 5,
        Stage::ReleasingIcons => 6,
        Stage::EnablingIconic => 7,
        Stage::CreatingThumbnail => 8,
        Stage::SettingThumbnail => 9,
        Stage::ReleasingThumbnail => 10,
        Stage::Finished => 11,
    }
}

/// An update of `w` that has not placed the row yet while the row does not exist, or
/// is adding it now, or is past it; once past registration, `w` is registered.
pub open spec fn before_first_row(
    p: Progress,
    w: isize,
    labels: Map<isize, Seq<char>>,
    ready: Set<isize>,
) -> bool {
    &&& (stage_rank(p.stage) < 4 && !ready.contains(w)) || adds_row(p) || stage_rank(p.stage) > 4
    &&& 2 <= stage_rank(p.stage) <= 4 ==> labels.contains_key(w)
    &&& ready.subset_of(labels.dom())
}

/// Over any series of outcomes, an update of a window whose row does not exist yet
/// places the row only by adding it, and once an add succeeds the window is ready at
/// the end of the update.
pub proof fn lemma_run_first_adds(
    p: Progress,
    w: isize,
    label: Seq<char>,
    labels: Map<isize, Seq<char>>,
    ready: Set<isize>,
    has_title: bool,
    cover: Option<Seq<u8>>,
    outcomes: Seq<Outcome>,
)
    requires
        before_first_row(p, w, labels, ready),
    ensures
        ({
            let run = run_steps(p, Some(w), label, labels, ready, has_title, cover, outcomes);
            &&& run.0.len() == outcomes.len()
            &&& forall|i: int|
                0 <= i < run.0.len() && (#[trigger] run.0[i]).stage == Stage::PlacingButtons
                    ==> run.0[i].adding
            &&& adds_row(p) && outcomes.len() > 0 && outcomes[0] == Outcome::Succeeded
                ==> run.2.contains(w)
            &&& forall|i: int|
                0 <= i < run.0.len() - 1 && adds_row(#[trigger] run.0[i]) && outcomes[i + 1]
                    == Outcome::Succeeded ==> run.2.contains(w)
        }),
    decreases outcomes.len(),
{
    if outcomes.len() > 0 {
        let h = Some(w);
        let o = outcomes[0];
        let q = next_progress(p, h, labels, ready, has_title, cover, o);
        let l2 = next_labels(p, h, label, labels, o);
        let r2 = next_ready(p, h, label, labels, ready, o);
        let tail = outcomes.subrange(1, outcomes.len() as int);
        assert(r2.subset_of(l2.dom()));
        assert(before_first_row(q, w, l2, r2));
        lemma_run_first_adds(q, w, label, l2, r2, has_title, cover, tail);
        let rest = run_steps(q, h, label, l2, r2, has_title, cover, tail);
        let run = run_steps(p, h, label, labels, ready, has_title, cover, outcomes);
        assert(run.0 == seq![q] + rest.0);
        if adds_row(p) && o == Outcome::Succeeded {
            assert(r2.contains(w));
            lemma_run_never_adds(q, w, label, l2, r2, has_title, cover, tail);
        }
        assert forall|i: int|
            0 <= i < run.0.len() && (#[trigger] run.0[i]).stage == Stage::PlacingButtons
                implies run.0[i].adding by {
            if i > 0 {
                assert(run.0[i] == rest.0[i - 1]);
            }
        }
        assert forall|i: int|
            0 <= i < run.0.len() - 1 && adds_row(#[trigger] run.0[i]) && outcomes[i + 1]
                == Outcome::Succeeded implies run.2.contains(w) by {
            if i > 0 {
                assert(run.0[i] == rest.0[i - 1]);
                assert(outcomes[i + 1] == tail[i]);
            } else {
                assert(tail[0] == outcomes[1]);
            }
        }
    }
}

/// The first update of a registered or new window whose row does not exist: whatever
/// the platform reports, every placement of the row is an add, and a successful add
/// leaves the window ready.
pub proof fn lemma_first_update_only_adds(
    w: isize,
    label: Seq<char>,
    labels: Map<isize, Seq<char>>,
    ready: Set<isize>,
    has_title: bool,
    cover: Option<Seq<u8>>,
    outcomes: Seq<Outcome>,
)
    requires
        !ready.contains(w),
        ready.subset_of(labels.dom()),
    ensures
        ({
            let run = run_steps(
                initial_progress(),
                Some(w),
                label,
                labels,
                ready,
                has_title,
                cover,
                outcomes,
            );
            &&& forall|i: int|
                0 <= i < run.0.len() && (#[trigger] run.0[i]).stage == Stage::PlacingButtons
                    ==> run.0[i].adding
            &&& forall|i: int|
                0 <= i < run.0.len() - 1 && adds_row(#[trigger] run.0[i]) && outcomes[i + 1]
                    == Outcome::Succeeded ==> run.2.contains(w)
        }),
{
    lemma_run_first_adds(initial_progress(), w, label, labels, ready, has_title, cover, outcomes);
}

} // verus!
