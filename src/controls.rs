//! The controls of the X1 and the fixed tables that place each of them in the
//! device's reports.
use vstd::prelude::*;

verus! {

/// A push button on the controller.
#[derive(Debug, Clone, Copy, PartialEq, Eq, Hash, Structural)]
pub enum Button {
    Shift,
    Hotcue,
    FX1(FxButton),
    FX2(FxButton),
    DeckA(DeckButton),
    DeckB(DeckButton),
}

/// The buttons of one effect unit.
#[derive(Debug, Clone, Copy, PartialEq, Eq, Hash, Structural)]
pub enum FxButton {
    On,
    Button1,
    Button2,
    Button3,
}

/// The buttons of one deck.
#[derive(Debug, Clone, Copy, PartialEq, Eq, Hash, Structural)]
pub enum DeckButton {
    Browse,
    FX1,
    FX2,
    Loop,
    In,
    Out,
    BeatBackward,
    BeatForward,
    Cue,
    Cup,
    Play,
    Sync,
}

/// A continuous knob on the controller.
#[derive(Debug, Clone, Copy, PartialEq, Eq, Hash, Structural)]
pub enum Knob {
    FX1(FxKnob),
    FX2(FxKnob),
}

/// The knobs of one effect unit.
#[derive(Debug, Clone, Copy, PartialEq, Eq, Hash, Structural)]
pub enum FxKnob {
    DryWet,
    Param1,
    Param2,
    Param3,
}

/// A rotary encoder on the controller.
#[derive(Debug, Clone, Copy, PartialEq, Eq, Hash, Structural)]
pub enum Encoder {
    DeckA(DeckEncoder),
    DeckB(DeckEncoder),
}

/// The rotary encoders of one deck.
#[derive(Debug, Clone, Copy, PartialEq, Eq, Hash, Structural)]
pub enum DeckEncoder {
    Browse,
    Loop,
}

/// The movement of a rotary encoder.
#[derive(Debug, Clone, Copy, PartialEq, Eq, Hash, Structural)]
pub enum EncoderState {
    Idle,
    CW,
    CCW,
}

/// Where the pressed flag of a button lies in the input report: the status
/// group (0 to 4, i.e. report byte 1 + group) and the bit within it.
pub open spec fn button_address(b: Button) -> (int, int) {
    match b {
        Button::Shift => (4, 4),
        Button::Hotcue => (4, 7),
        Button::FX1(FxButton::On) => (3, 4),
        Button::FX1(FxButton::Button1) => (3, 5),
        Button::FX1(FxButton::Button2) => (3, 6),
        Button::FX1(FxButton::Button3) => (3, 7),
        Button::FX2(FxButton::On) => (4, 0),
        Button::FX2(FxButton::Button1) => (4, 1),
        Button::FX2(FxButton::Button2) => (4, 2),
        Button::FX2(FxButton::Button3) => (4, 3),
        Button::DeckA(DeckButton::Browse) => (3, 0),
        Button::DeckA(DeckButton::FX1) => (1, 1),
        Button::DeckA(DeckButton::FX2) => (1, 0),
        Button::DeckA(DeckButton::Loop) => (3, 2),
        Button::DeckA(DeckButton::In) => (2, 4),
        Button::DeckA(DeckButton::Out) => (0, 3),
        Button::DeckA(DeckButton::BeatBackward) => (0, 2),
        Button::DeckA(DeckButton::BeatForward) => (2, 5),
        Button::DeckA(DeckButton::Cue) => (0, 1),
        Button::DeckA(DeckButton::Cup) => (2, 6),
        Button::DeckA(DeckButton::Play) => (0, 0),
        Button::DeckA(DeckButton::Sync) => (2, 7),
        Button::DeckB(DeckButton::Browse) => (3, 1),
        Button::DeckB(DeckButton::FX1) => (4, 6),
        Button::DeckB(DeckButton::FX2) => (4, 5),
        Button::DeckB(DeckButton::Loop) => (3, 3),
        Button::DeckB(DeckButton::In) => (1, 4),
        Button::DeckB(DeckButton::Out) => (2, 3),
        Button::DeckB(DeckButton::BeatBackward) => (2, 2),
        Button::DeckB(DeckButton::BeatForward) => (1, 5),
        Button::DeckB(DeckButton::Cue) => (2, 1),
        Button::DeckB(DeckButton::Cup) => (1, 6),
        Button::DeckB(DeckButton::Play) => (2, 0),
        Button::DeckB(DeckButton::Sync) => (1, 7),
    }
}

/// The byte of the output report that holds a button's LED intensity, if
/// the button has an LED of its own.
pub open spec fn led_offset(b: Button) -> Option<int> {
    match b {
        Button::Shift => Some(29),
        Button::Hotcue => Some(30),
        Button::FX1(FxButton::On) => Some(8),
        Button::FX1(FxButton::Button1) => Some(7),
        Button::FX1(FxButton::Button2) => Some(6),
        Button::FX1(FxButton::Button3) => Some(5),
        Button::FX2(FxButton::On) => Some(4),
        Button::FX2(FxButton::Button1) => Some(3),
        Button::FX2(FxButton::Button2) => Some(2),
        Button::FX2(FxButton::Button3) => Some(1),
        Button::DeckA(DeckButton::FX1) => Some(25),
        Button::DeckA(DeckButton::FX2) => Some(26),
        Button::DeckA(DeckButton::In) => Some(18),
        Button::DeckA(DeckButton::Out) => Some(17),
        Button::DeckA(DeckButton::BeatBackward) => Some(20),
        Button::DeckA(DeckButton::BeatForward) => Some(19),
        Button::DeckA(DeckButton::Cue) => Some(22),
        Button::DeckA(DeckButton::Cup) => Some(21),
        Button::DeckA(DeckButton::Play) => Some(24),
        Button::DeckA(DeckButton::Sync) => Some(23),
        Button::DeckB(DeckButton::FX1) => Some(27),
        Button::DeckB(DeckButton::FX2) => Some(28),
        Button::DeckB(DeckButton::In) => Some(16),
        Button::DeckB(DeckButton::Out) => Some(15),
        Button::DeckB(DeckButton::BeatBackward) => Some(14),
        Button::DeckB(DeckButton::BeatForward) => Some(13),
        Button::DeckB(DeckButton::Cue) => Some(12),
        Button::DeckB(DeckButton::Cup) => Some(11),
        Button::DeckB(DeckButton::Play) => Some(10),
        Button::DeckB(DeckButton::Sync) => Some(9),
        _ => None,
    }
}

/// The report bytes `(high, low)` of a knob's big-endian reading.
pub open spec fn knob_bytes(k: Knob) -> (int, int) {
    match k {
        Knob::FX1(FxKnob::DryWet) => (16, 17),
        Knob::FX1(FxKnob::Param1) => (20, 21),
        Knob::FX1(FxKnob::Param2) => (22, 23),
        Knob::FX1(FxKnob::Param3) => (18, 19),
        Knob::FX2(FxKnob::DryWet) => (12, 13),
        Knob::FX2(FxKnob::Param1) => (10, 11),
        Knob::FX2(FxKnob::Param2) => (8, 9),
        Knob::FX2(FxKnob::Param3) => (14, 15),
    }
}

/// The slot (0 to 7) that a decoded state keeps a knob's reading in.
pub open spec fn knob_slot(k: Knob) -> int {
    match k {
        Knob::FX1(FxKnob::DryWet) => 0,
        Knob::FX1(FxKnob::Param1) => 1,
        Knob::FX1(FxKnob::Param2) => 2,
        Knob::FX1(FxKnob::Param3) => 3,
        Knob::FX2(FxKnob::DryWet) => 4,
        Knob::FX2(FxKnob::Param1) => 5,
        Knob::FX2(FxKnob::Param2) => 6,
        Knob::FX2(FxKnob::Param3) => 7,
    }
}

impl Button {
    /// The status group and bit that report this button as pressed.
    pub fn input_address(self) -> (r: (usize, usize))
        ensures
            r.0 as int == button_address(self).0,
            r.1 as int == button_address(self).1,
            r.0 < 5,
            r.1 < 8,
    {
        match self {
            Button::Shift => (4, 4),
            Button::Hotcue => (4, 7),
            Button::FX1(FxButton::On) => (3, 4),
            Button::FX1(FxButton::Button1) => (3, 5),
            Button::FX1(FxButton::Button2) => (3, 6),
            Button::FX1(FxButton::Button3) => (3, 7),
            Button::FX2(FxButton::On) => (4, 0),
            Button::FX2(FxButton::Button1) => (4, 1),
            Button::FX2(FxButton::Button2) => (4, 2),
            Button::FX2(FxButton::Button3) => (4, 3),
            Button::DeckA(DeckButton::Browse) => (3, 0),
            Button::DeckA(DeckButton::FX1) => (1, 1),
            Button::DeckA(DeckButton::FX2) => (1, 0),
            Button::DeckA(DeckButton::Loop) => (3, 2),
            Button::DeckA(DeckButton::In) => (2, 4),
            Button::DeckA(DeckButton::Out) => (0, 3),
            Button::DeckA(DeckButton::BeatBackward) => (0, 2),
            Button::DeckA(DeckButton::BeatForward) => (2, 5),
            Button::DeckA(DeckButton::Cue) => (0, 1),
            Button::DeckA(DeckButton::Cup) => (2, 6),
            Button::DeckA(DeckButton::Play) => (0, 0),
            Button::DeckA(DeckButton::Sync) => (2, 7),
            Button::DeckB(DeckButton::Browse) => (3, 1),
            Button::DeckB(DeckButton::FX1) => (4, 6),
            Button::DeckB(DeckButton::FX2) => (4, 5),
            Button::DeckB(DeckButton::Loop) => (3, 3),
            Button::DeckB(DeckButton::In) => (1, 4),
            Button::DeckB(DeckButton::Out) => (2, 3),
            Button::DeckB(DeckButton::BeatBackward) => (2, 2),
            Button::DeckB(DeckButton::BeatForward) => (1, 5),
            Button::DeckB(DeckButton::Cue) => (2, 1),
            Button::DeckB(DeckButton::Cup) => (1, 6),
            Button::DeckB(DeckButton::Play) => (2, 0),
            Button::DeckB(DeckButton::Sync) => (1, 7),
        }
    }

    /// The output report byte of this button's LED; `None` for the buttons
    /// without an LED of their own (the decks' Browse and Loop).
    pub fn led_address(self) -> (r: Option<usize>)
        ensures
            r is Some <==> led_offset(self) is Some,
            r is Some ==> r->0 as int == led_offset(self)->0,
            r is Some ==> 1 <= r->0 <= 30,
    {
        match self {
            Button::Shift => Some(29),
            Button::Hotcue => Some(30),
            Button::FX1(FxButton::On) => Some(8),
            Button::FX1(FxButton::Button1) => Some(7),
            Button::FX1(FxButton::Button2) => Some(6),
            Button::FX1(FxButton::Button3) => Some(5),
            Button::FX2(FxButton::On) => Some(4),
            Button::FX2(FxButton::Button1) => Some(3),
            Button::FX2(FxButton::Button2) => Some(2),
            Button::FX2(FxButton::Button3) => Some(1),
            Button::DeckA(DeckButton::FX1) => Some(25),
            Button::DeckA(DeckButton::FX2) => Some(26),
            Button::DeckA(DeckButton::In) => Some(18),
            Button::DeckA(DeckButton::Out) => Some(17),
            Button::DeckA(DeckButton::BeatBackward) => Some(20),
            Button::DeckA(DeckButton::BeatForward) => Some(19),
            Button::DeckA(DeckButton::Cue) => Some(22),
            Button::DeckA(DeckButton::Cup) => Some(21),
            Button::DeckA(DeckButton::Play) => Some(24),
            Button::DeckA(DeckButton::Sync) => Some(23),
            Button::DeckB(DeckButton::FX1) => Some(27),
            Button::DeckB(DeckButton::FX2) => Some(28),
            Button::DeckB(DeckButton::In) => Some(16),
            Button::DeckB(DeckButton::Out) => Some(15),
            Button::DeckB(DeckButton::BeatBackward) => Some(14),
            Button::DeckB(DeckButton::BeatForward) => Some(13),
            Button::DeckB(DeckButton::Cue) => Some(12),
            Button::DeckB(DeckButton::Cup) => Some(11),
            Button::DeckB(DeckButton::Play) => Some(10),
            Button::DeckB(DeckButton::Sync) => Some(9),
            _ => None,
        }
    }
}

impl Knob {
    /// The slot of this knob's reading in a decoded state.
    pub fn slot(self) -> (r: usize)
        ensures
            r as int == knob_slot(self),
            r < 8,
    {
        match self {
            Knob::FX1(FxKnob::DryWet) => 0,
            Knob::FX1(FxKnob::Param1) => 1,
            Knob::FX1(FxKnob::Param2) => 2,
            Knob::FX1(FxKnob::Param3) => 3,
            Knob::FX2(FxKnob::DryWet) => 4,
            Knob::FX2(FxKnob::Param1) => 5,
            Knob::FX2(FxKnob::Param2) => 6,
            Knob::FX2(FxKnob::Param3) => 7,
        }
    }
}

/// No two buttons share an LED byte.
pub proof fn lemma_led_offsets_distinct(a: Button, b: Button)
    requires
        led_offset(a) is Some,
        led_offset(a) == led_offset(b),
    ensures
        a == b,
{
}

} // verus!
