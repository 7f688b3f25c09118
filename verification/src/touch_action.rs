//! Touch (tap) action mapping for L/R earbud gestures.
//! Written to a dedicated raw characteristic (`0000000d`, service `a001`),
//! not the `0xFF`-framed command channel: each write is a bare 2-byte
//! `[control, action]` pair, and a read returns the full assignment table.

use vstd::prelude::*;

verus! {

/// Which earbud and click count a control slot addresses.
///
/// Wire encoding: `2 * (click_count - 1) + side`, with `side` = `1` for
/// the left earbud and `2` for the right.
#[derive(Debug, Clone, Copy, PartialEq, Eq, Structural)]
pub enum TouchControl {
    LeftSingle,
    RightSingle,
    LeftDouble,
    RightDouble,
    LeftTriple,
    RightTriple,
}

/// The action a tap gesture triggers.
///
/// `0x07`/`0x08` exist as slots in the read-back table but are unmapped.
#[derive(Debug, Clone, Copy, PartialEq, Eq, Structural)]
pub enum TouchAction {
    NoAction,
    PlayPause,
    Previous,
    Next,
    VoiceAssistant,
    VolumeUp,
    VolumeDown,
    GameMode,
    Anc,
}

pub open spec fn control_raw(control: TouchControl) -> u8 {
    match control {
        TouchControl::LeftSingle => 0x01,
        TouchControl::RightSingle => 0x02,
        TouchControl::LeftDouble => 0x03,
        TouchControl::RightDouble => 0x04,
        TouchControl::LeftTriple => 0x05,
        TouchControl::RightTriple => 0x06,
    }
}

pub open spec fn control_from_raw(value: u8) -> Option<TouchControl> {
    if value == 0x01 {
        Some(TouchControl::LeftSingle)
    } else if value == 0x02 {
        Some(TouchControl::RightSingle)
    } else if value == 0x03 {
        Some(TouchControl::LeftDouble)
    } else if value == 0x04 {
        Some(TouchControl::RightDouble)
    } else if value == 0x05 {
        Some(TouchControl::LeftTriple)
    } else if value == 0x06 {
        Some(TouchControl::RightTriple)
    } else {
        None
    }
}

pub open spec fn action_raw(action: TouchAction) -> u8 {
    match action {
        TouchAction::NoAction => 0x00,
        TouchAction::PlayPause => 0x01,
        TouchAction::Previous => 0x02,
        TouchAction::Next => 0x03,
        TouchAction::VoiceAssistant => 0x04,
        TouchAction::VolumeUp => 0x05,
        TouchAction::VolumeDown => 0x06,
        TouchAction::GameMode => 0x07,
        TouchAction::Anc => 0x0b,
    }
}

pub open spec fn action_from_raw(value: u8) -> Option<TouchAction> {
    if value == 0x00 {
        Some(TouchAction::NoAction)
    } else if value == 0x01 {
        Some(TouchAction::PlayPause)
    } else if value == 0x02 {
        Some(TouchAction::Previous)
    } else if value == 0x03 {
        Some(TouchAction::Next)
    } else if value == 0x04 {
        Some(TouchAction::VoiceAssistant)
    } else if value == 0x05 {
        Some(TouchAction::VolumeUp)
    } else if value == 0x06 {
        Some(TouchAction::VolumeDown)
    } else if value == 0x07 {
        Some(TouchAction::GameMode)
    } else if value == 0x0b {
        Some(TouchAction::Anc)
    } else {
        None
    }
}

/// The label shown for an action.
pub open spec fn action_label(action: TouchAction) -> &'static str {
    match action {
        TouchAction::NoAction => "No action",
        TouchAction::PlayPause => "Play / Pause",
        TouchAction::Previous => "Previous track",
        TouchAction::Next => "Next track",
        TouchAction::VoiceAssistant => "Voice assistant",
        TouchAction::VolumeUp => "Volume up",
        TouchAction::VolumeDown => "Volume down",
        TouchAction::GameMode => "Game mode",
        TouchAction::Anc => "ANC",
    }
}

/// All six controls, in wire order.
pub fn all_controls() -> (v: Vec<TouchControl>)
    ensures
        v@ == seq![
            TouchControl::LeftSingle,
            TouchControl::RightSingle,
            TouchControl::LeftDouble,
            TouchControl::RightDouble,
            TouchControl::LeftTriple,
            TouchControl::RightTriple,
        ],
{
    vec![
        TouchControl::LeftSingle,
        TouchControl::RightSingle,
        TouchControl::LeftDouble,
        TouchControl::RightDouble,
        TouchControl::LeftTriple,
        TouchControl::RightTriple,
    ]
}

/// All nine actions, in menu order.
pub fn all_actions() -> (v: Vec<TouchAction>)
    ensures
        v@ == seq![
            TouchAction::NoAction,
            TouchAction::PlayPause,
            TouchAction::Previous,
            TouchAction::Next,
            TouchAction::VoiceAssistant,
            TouchAction::VolumeUp,
            TouchAction::VolumeDown,
            TouchAction::GameMode,
            TouchAction::Anc,
        ],
{
    vec![
        TouchAction::NoAction,
        TouchAction::PlayPause,
        TouchAction::Previous,
        TouchAction::Next,
        TouchAction::VoiceAssistant,
        TouchAction::VolumeUp,
        TouchAction::VolumeDown,
        TouchAction::GameMode,
        TouchAction::Anc,
    ]
}

impl TouchControl {
    pub fn raw(self) -> (r: u8)
        ensures
            r == control_raw(self),
    {
        match self {
            TouchControl::LeftSingle => 0x01,
            TouchControl::RightSingle => 0x02,
            TouchControl::LeftDouble => 0x03,
            TouchControl::RightDouble => 0x04,
            TouchControl::LeftTriple => 0x05,
            TouchControl::RightTriple => 0x06,
        }
    }

    pub fn from_raw(value: u8) -> (r: Option<Self>)
        ensures
            r == control_from_raw(value),
    {
        match value {
            0x01 => Some(TouchControl::LeftSingle),
            0x02 => Some(TouchControl::RightSingle),
            0x03 => Some(TouchControl::LeftDouble),
            0x04 => Some(TouchControl::RightDouble),
            0x05 => Some(TouchControl::LeftTriple),
            0x06 => Some(TouchControl::RightTriple),
            _ => None,
        }
    }
}

impl TouchAction {
    pub fn raw(self) -> (r: u8)
        ensures
            r == action_raw(self),
    {
        match self {
            TouchAction::NoAction => 0x00,
            TouchAction::PlayPause => 0x01,
            TouchAction::Previous => 0x02,
            TouchAction::Next => 0x03,
            TouchAction::VoiceAssistant => 0x04,
            TouchAction::VolumeUp => 0x05,
            TouchAction::VolumeDown => 0x06,
            TouchAction::GameMode => 0x07,
            TouchAction::Anc => 0x0b,
        }
    }

    pub fn from_raw(value: u8) -> (r: Option<Self>)
        ensures
            r == action_from_raw(value),
    {
        match value {
            0x00 => Some(TouchAction::NoAction),
            0x01 => Some(TouchAction::PlayPause),
            0x02 => Some(TouchAction::Previous),
            0x03 => Some(TouchAction::Next),
            0x04 => Some(TouchAction::VoiceAssistant),
            0x05 => Some(TouchAction::VolumeUp),
            0x06 => Some(TouchAction::VolumeDown),
            0x07 => Some(TouchAction::GameMode),
            0x0b => Some(TouchAction::Anc),
            _ => None,
        }
    }

    /// The human-readable label of this action.
    pub fn label(&self) -> (r: &'static str)
        ensures
            r == action_label(*self),
    {
        match self {
            TouchAction::NoAction => "No action",
            TouchAction::PlayPause => "Play / Pause",
            TouchAction::Previous => "Previous track",
            TouchAction::Next => "Next track",
            TouchAction::VoiceAssistant => "Voice assistant",
            TouchAction::VolumeUp => "Volume up",
            TouchAction::VolumeDown => "Volume down",
            TouchAction::GameMode => "Game mode",
            TouchAction::Anc => "ANC",
        }
    }
}

/// Builds the raw 2-byte write payload for one control/action assignment.
/// Not a framed command: written verbatim.
pub fn set_touch_action(control: TouchControl, action: TouchAction) -> (r: [u8; 2])
    ensures
        r@ == seq![control_raw(control), action_raw(action)],
{
    let r = [control.raw(), action.raw()];
    assert(r@ == seq![control_raw(control), action_raw(action)]);
    r
}

/// All six control/action assignments, parsed from a raw characteristic read.
#[derive(Debug, Clone, Copy, PartialEq, Eq, Structural)]
pub struct TouchActionMap {
    pub left_single: Option<TouchAction>,
    pub right_single: Option<TouchAction>,
    pub left_double: Option<TouchAction>,
    pub right_double: Option<TouchAction>,
    pub left_triple: Option<TouchAction>,
    pub right_triple: Option<TouchAction>,
}

/// The map with every slot unassigned.
pub open spec fn empty_map() -> TouchActionMap {
    TouchActionMap {
        left_single: None,
        right_single: None,
        left_double: None,
        right_double: None,
        left_triple: None,
        right_triple: None,
    }
}

/// `map` with `control`'s slot set to `action`.
pub open spec fn with_slot(
    map: TouchActionMap,
    control: TouchControl,
    action: Option<TouchAction>,
) -> TouchActionMap {
    match control {
        TouchControl::LeftSingle => TouchActionMap { left_single: action, ..map },
        TouchControl::RightSingle => TouchActionMap { right_single: action, ..map },
        TouchControl::LeftDouble => TouchActionMap { left_double: action, ..map },
        TouchControl::RightDouble => TouchActionMap { right_double: action, ..map },
        TouchControl::LeftTriple => TouchActionMap { left_triple: action, ..map },
        TouchControl::RightTriple => TouchActionMap { right_triple: action, ..map },
    }
}

/// The slot of `map` that `control` addresses.
pub open spec fn slot(map: TouchActionMap, control: TouchControl) -> Option<TouchAction> {
    match control {
        TouchControl::LeftSingle => map.left_single,
        TouchControl::RightSingle => map.right_single,
        TouchControl::LeftDouble => map.left_double,
        TouchControl::RightDouble => map.right_double,
        TouchControl::LeftTriple => map.left_triple,
        TouchControl::RightTriple => map.right_triple,
    }
}

/// The map after applying the first `n` `[control, action]` pairs of
/// `data` in order: a pair with an unknown control byte is skipped, and a
/// later pair for the same control wins.
pub open spec fn map_of_pairs(data: Seq<u8>, n: nat) -> TouchActionMap
    decreases n,
{
    if n == 0 {
        empty_map()
    } else {
        let prev = map_of_pairs(data, (n - 1) as nat);
        let c = data[2 * (n - 1)];
        let a = data[2 * (n - 1) + 1];
        match control_from_raw(c) {
            Some(control) => with_slot(prev, control, action_from_raw(a)),
            None => prev,
        }
    }
}

impl Default for TouchActionMap {
    fn default() -> (m: Self)
        ensures
            m == empty_map(),
    {
        TouchActionMap {
            left_single: None,
            right_single: None,
            left_double: None,
            right_double: None,
            left_triple: None,
            right_triple: None,
        }
    }
}

impl TouchActionMap {
    /// Sets the slot that `control` addresses.
    pub fn set_slot(&mut self, control: TouchControl, action: Option<TouchAction>)
        ensures
            *final(self) == with_slot(*old(self), control, action),
    {
        match control {
            TouchControl::LeftSingle => self.left_single = action,
            TouchControl::RightSingle => self.right_single = action,
            TouchControl::LeftDouble => self.left_double = action,
            TouchControl::RightDouble => self.right_double = action,
            TouchControl::LeftTriple => self.left_triple = action,
            TouchControl::RightTriple => self.right_triple = action,
        }
    }

    /// Parses `[control, action]` pairs from a raw read. Unrecognized
    /// control bytes, including padding and the unmapped `0x07`/`0x08`
    /// slots, are skipped, as is a trailing odd byte.
    pub fn parse(data: &[u8]) -> (m: Self)
        ensures
            m == map_of_pairs(data@, (data@.len() / 2) as nat),
    {
        let mut map = Self::default();
        let pairs = data.len() / 2;
        let mut i: usize = 0;
        while i < pairs
            invariant
                pairs == data@.len() / 2,
                i <= pairs,
                map == map_of_pairs(data@, i as nat),
            decreases pairs - i,
        {
            let c = data[2 * i];
            let a = data[2 * i + 1];
            match TouchControl::from_raw(c) {
                Some(control) => {
                    let action = TouchAction::from_raw(a);
                    map.set_slot(control, action);
                },
                None => {},
            }
            i = i + 1;
        }
        map
    }
}

/// Writing an assignment and reading back a table that holds exactly that
/// pair gives the written action in the written slot.
pub proof fn lemma_touch_action_round_trip(control: TouchControl, action: TouchAction)
    ensures
        slot(map_of_pairs(seq![control_raw(control), action_raw(action)], 1), control) == Some(
            action,
        ),
{
    let data = seq![control_raw(control), action_raw(action)];
    assert(map_of_pairs(data, 0) == empty_map());
}

/// The firmware's fixed tap-table codes: controls `0x01..=0x06` from left
/// single to right triple, actions no action `0x00`, play/pause `0x01`,
/// previous `0x02`, next `0x03`, voice assistant `0x04`, volume up `0x05`,
/// volume down `0x06`, game mode `0x07` and ANC `0x0b`; a byte reads back as
/// an action or control exactly when it is that one's code.
pub proof fn lemma_wire_codes()
    ensures
        control_raw(TouchControl::LeftSingle) == 0x01u8,
        control_raw(TouchControl::RightSingle) == 0x02u8,
        control_raw(TouchControl::LeftDouble) == 0x03u8,
        control_raw(TouchControl::RightDouble) == 0x04u8,
        control_raw(TouchControl::LeftTriple) == 0x05u8,
        control_raw(TouchControl::RightTriple) == 0x06u8,
        action_raw(TouchAction::NoAction) == 0x00u8,
        action_raw(TouchAction::PlayPause) == 0x01u8,
        action_raw(TouchAction::Previous) == 0x02u8,
        action_raw(TouchAction::Next) == 0x03u8,
        action_raw(TouchAction::VoiceAssistant) == 0x04u8,
        action_raw(TouchAction::VolumeUp) == 0x05u8,
        action_raw(TouchAction::VolumeDown) == 0x06u8,
        action_raw(TouchAction::GameMode) == 0x07u8,
        action_raw(TouchAction::Anc) == 0x0bu8,
        forall|b: u8, a: TouchAction| (action_from_raw(b) == Some(a)) == (action_raw(a) == b),
        forall|b: u8, c: TouchControl| (control_from_raw(b) == Some(c)) == (control_raw(c) == b),
{
    assert forall|b: u8, a: TouchAction| (action_from_raw(b) == Some(a)) == (action_raw(a) == b) by {
        match a {
            TouchAction::NoAction => {},
            TouchAction::PlayPause => {},
            TouchAction::Previous => {},
            TouchAction::Next => {},
            TouchAction::VoiceAssistant => {},
            TouchAction::VolumeUp => {},
            TouchAction::VolumeDown => {},
            TouchAction::GameMode => {},
            TouchAction::Anc => {},
        }
    }
    assert forall|b: u8, c: TouchControl| (control_from_raw(b) == Some(c)) == (control_raw(c) == b) by {
        match c {
            TouchControl::LeftSingle => {},
            TouchControl::RightSingle => {},
            TouchControl::LeftDouble => {},
            TouchControl::RightDouble => {},
            TouchControl::LeftTriple => {},
            TouchControl::RightTriple => {},
        }
    }
}

} // verus!
