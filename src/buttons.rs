use vstd::prelude::*;

use crate::glyph::Glyph;
use crate::registry::WindowRegistry;

verus! {

/// Identifier of the "previous track" button.
pub const BUTTON_PREV: u32 = 1;

/// Identifier of the play/pause button.
pub const BUTTON_PLAY_OR_PAUSE: u32 = 2;

/// Identifier of the "next track" button.
pub const BUTTON_NEXT: u32 = 3;

/// Capacity, in UTF-16 code units, of a button's tooltip field, terminator included.
pub const TIP_CAPACITY: usize = 260;

/// The platform's message code for a command such as a button click.
pub const WM_COMMAND: u32 = 0x0111;

/// The platform's last message to a window that is being destroyed.
pub const WM_NCDESTROY: u32 = 0x0082;

/// The UTF-16 encoding of one character: one code unit, or a surrogate pair above U+FFFF.
pub open spec fn utf16_of_char(c: char) -> Seq<u16> {
    let v = c as u32 as int;
    if v < 0x10000 {
        seq![v as u16]
    } else {
        seq![(0xd800 + (v - 0x10000) / 0x400) as u16, (0xdc00 + (v - 0x10000) % 0x400) as u16]
    }
}

/// The UTF-16 encoding of a string.
pub open spec fn utf16_units(s: Seq<char>) -> Seq<u16>
    decreases s.len(),
{
    if s.len() == 0 {
        Seq::empty()
    } else {
        utf16_units(s.drop_last()) + utf16_of_char(s.last())
    }
}

/// Relies on `str::encode_utf16`: each character in turn becomes its UTF-16 code units.
#[verifier::external_body]
fn encode_utf16(text: &str) -> (r: Vec<u16>)
    ensures
        r@ == utf16_units(text@),
{
    text.encode_utf16().collect()
}

/// A tooltip field after writing `units` into `field`: at most 259 code units, then a
/// terminator; the rest of the field is left as it was.
pub open spec fn tip_written(field: Seq<u16>, units: Seq<u16>) -> Seq<u16> {
    let k = if units.len() < TIP_CAPACITY - 1 {
        units.len() as int
    } else {
        TIP_CAPACITY - 1
    };
    units.subrange(0, k) + seq![0u16] + field.subrange(k + 1, TIP_CAPACITY as int)
}

/// A zeroed tooltip field holding `text`.
pub open spec fn tip_field(text: Seq<char>) -> Seq<u16> {
    tip_written(Seq::new(TIP_CAPACITY as nat, |i: int| 0u16), utf16_units(text))
}

/// Writes `text` into a tooltip field as null-terminated UTF-16, cutting it to the
/// 259 code units that fit before the terminator.
pub fn set_tip(buf: &mut [u16; 260], text: &str)
    ensures
        final(buf)@ == tip_written(old(buf)@, utf16_units(text@)),
{
    let wide = encode_utf16(text);
    let k: usize = if wide.len() < TIP_CAPACITY - 1 {
        wide.len()
    } else {
        TIP_CAPACITY - 1
    };
    let ghost start = buf@;
    let mut i: usize = 0;
    while i < k
        invariant
            k < TIP_CAPACITY,
            k <= wide@.len(),
            i <= k,
            buf@.len() == TIP_CAPACITY,
            forall|j: int| 0 <= j < i ==> #[trigger] buf@[j] == wide@[j],
            forall|j: int| i <= j < TIP_CAPACITY ==> #[trigger] buf@[j] == start[j],
        decreases k - i,
    {
        buf[i] = wide[i];
        i = i + 1;
    }
    buf[k] = 0;
    proof {
        assert(buf@ =~= tip_written(start, utf16_units(text@)));
    }
}

/// One button of the thumbnail toolbar as handed to the platform. A button without
/// an icon changes only its tooltip and flags, leaving its icon as it is.
#[derive(Clone, Copy, Debug)]
pub struct ThumbButton {
    pub id: u32,
    pub icon: Option<Glyph>,
    pub enabled: bool,
    pub tip: [u16; 260],
}

/// The tooltip shown on the button `id`.
pub open spec fn tooltip_text(id: u32, is_playing: bool) -> Seq<char> {
    if id == BUTTON_PREV {
        "Previous"@
    } else if id == BUTTON_PLAY_OR_PAUSE {
        if is_playing {
            "Pause"@
        } else {
            "Play"@
        }
    } else {
        "Next"@
    }
}

/// The symbol drawn on the button `id`: the play/pause button offers the opposite of
/// the current state.
pub open spec fn button_glyph(id: u32, is_playing: bool) -> Glyph {
    if id == BUTTON_PREV {
        Glyph::Prev
    } else if id == BUTTON_PLAY_OR_PAUSE {
        if is_playing {
            Glyph::Pause
        } else {
            Glyph::Play
        }
    } else {
        Glyph::Next
    }
}

/// The button `id` of the row, with its icon, enabled, with its tooltip.
pub open spec fn is_row_button(b: ThumbButton, id: u32, is_playing: bool) -> bool {
    &&& b.id == id
    &&& b.icon == Some(button_glyph(id, is_playing))
    &&& b.enabled
    &&& b.tip@ == tip_field(tooltip_text(id, is_playing))
}

fn row_button(id: u32, glyph: Glyph, text: &str) -> (r: ThumbButton)
    ensures
        r.id == id,
        r.icon == Some(glyph),
        r.enabled,
        r.tip@ == tip_field(text@),
{
    let mut tip: [u16; 260] = [0; 260];
    proof {
        assert(tip@ =~= Seq::new(TIP_CAPACITY as nat, |i: int| 0u16));
    }
    set_tip(&mut tip, text);
    ThumbButton { id, icon: Some(glyph), enabled: true, tip }
}

/// The three transport buttons, in order: previous, play or pause, next.
pub fn button_row(is_playing: bool) -> (r: Vec<ThumbButton>)
    ensures
        r@.len() == 3,
        is_row_button(r@[0], BUTTON_PREV, is_playing),
        is_row_button(r@[1], BUTTON_PLAY_OR_PAUSE, is_playing),
        is_row_button(r@[2], BUTTON_NEXT, is_playing),
{
    let prev = row_button(BUTTON_PREV, Glyph::Prev, "Previous");
    let play = if is_playing {
        row_button(BUTTON_PLAY_OR_PAUSE, Glyph::Pause, "Pause")
    } else {
        row_button(BUTTON_PLAY_OR_PAUSE, Glyph::Play, "Play")
    };
    let next = row_button(BUTTON_NEXT, Glyph::Next, "Next");
    let mut row: Vec<ThumbButton> = Vec::new();
    row.push(prev);
    row.push(play);
    row.push(next);
    row
}

/// The tooltip-only update that shows the track title on the play/pause button.
pub fn title_button(title: &str) -> (r: ThumbButton)
    ensures
        r.id == BUTTON_PLAY_OR_PAUSE,
        r.icon is None,
        r.enabled,
        r.tip@ == tip_field(title@),
{
    let mut tip: [u16; 260] = [0; 260];
    proof {
        assert(tip@ =~= Seq::new(TIP_CAPACITY as nat, |i: int| 0u16));
    }
    set_tip(&mut tip, title);
    ThumbButton { id: BUTTON_PLAY_OR_PAUSE, icon: None, enabled: true, tip }
}

/// What a click on a transport button asks the player to do.
#[derive(Clone, Copy, Debug, PartialEq, Eq, Structural)]
pub enum ThumbAction {
    Prev,
    Toggle,
    Next,
}

/// The action of the button `id`, if it is one of the three.
pub open spec fn action_of(id: u32) -> Option<ThumbAction> {
    if id == BUTTON_PREV {
        Some(ThumbAction::Prev)
    } else if id == BUTTON_PLAY_OR_PAUSE {
        Some(ThumbAction::Toggle)
    } else if id == BUTTON_NEXT {
        Some(ThumbAction::Next)
    } else {
        None
    }
}

/// The payload sent to the window for an action.
pub open spec fn payload_of(action: ThumbAction) -> Seq<char> {
    match action {
        ThumbAction::Prev => "prev"@,
        ThumbAction::Toggle => "toggle"@,
        ThumbAction::Next => "next"@,
    }
}

/// Maps a button identifier to its action; other identifiers have none.
pub fn button_action(id: u32) -> (r: Option<ThumbAction>)
    ensures
        r == action_of(id),
{
    if id == BUTTON_PREV {
        Some(ThumbAction::Prev)
    } else if id == BUTTON_PLAY_OR_PAUSE {
        Some(ThumbAction::Toggle)
    } else if id == BUTTON_NEXT {
        Some(ThumbAction::Next)
    } else {
        None
    }
}

impl ThumbAction {
    /// The event payload: "prev", "toggle" or "next".
    pub fn payload(&self) -> (r: &'static str)
        ensures
            r@ == payload_of(*self),
    {
        match self {
            ThumbAction::Prev => "prev",
            ThumbAction::Toggle => "toggle",
            ThumbAction::Next => "next",
        }
    }
}

/// Name of the event that carries a button click to its window.
pub const THUMB_BUTTON_EVENT: &'static str = "windows-thumb-button";

/// A button click to forward: the label of the window it is for, and the action.
#[derive(Clone, Debug)]
pub struct ButtonClick {
    pub label: String,
    pub action: ThumbAction,
}

/// What the message filter does with one window message: possibly send a click
/// event, forget a window that is going away, and then hand the message on to the
/// default handler.
#[derive(Clone, Debug)]
pub struct MessageRoute {
    pub click: Option<ButtonClick>,
    pub destroyed: bool,
    pub forward: bool,
}

/// The button identifier carried by a command message: the low 16 bits of its
/// parameter.
pub open spec fn command_id(wparam: usize) -> u32 {
    (wparam % 0x10000) as u32
}

/// Decides what a window message means for the taskbar buttons. A command from one of
/// the three buttons, on a registered window, becomes a click for that window's label;
/// anything else sends nothing. The window's last message marks it destroyed, so that
/// the registry can drop it. Every message is handed on to the default handler.
pub fn route_message(registry: &WindowRegistry, hwnd: isize, msg: u32, wparam: usize) -> (r:
    MessageRoute)
    requires
        registry.wf(),
    ensures
        r.forward,
        r.destroyed == (msg == WM_NCDESTROY),
        r.click is Some <==> (msg == WM_COMMAND && action_of(command_id(wparam)) is Some
            && registry.labels().contains_key(hwnd)),
        r.click matches Some(c) ==> c.label@ == registry.labels()[hwnd] && Some(c.action)
            == action_of(command_id(wparam)),
{
    if msg != WM_COMMAND {
        return MessageRoute { click: None, destroyed: msg == WM_NCDESTROY, forward: true };
    }
    let id = (wparam % 0x10000) as u32;
    let click = match button_action(id) {
        Some(action) => match registry.label_of(hwnd) {
            Some(label) => Some(ButtonClick { label, action }),
            None => None,
        },
        None => None,
    };
    MessageRoute { click, destroyed: false, forward: true }
}

} // verus!
