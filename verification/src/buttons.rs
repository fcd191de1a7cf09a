//! The logical button vocabulary, the physical vocabulary of the input
//! source, the translation table between the two, and the protocol mnemonic
//! of each logical button.

use vstd::prelude::*;

verus! {

/// A logical controller button: the closed set of buttons the emulation
/// protocol knows about. Used only as a mapping key.
#[derive(Clone, Copy, PartialEq, Eq, Structural, Debug)]
pub enum Button {
    A,
    B,
    X,
    Y,
    DPADRIGHT,
    DPADDOWN,
    DPADLEFT,
    DPADUP,
    R1,
    L1,
    R2,
    L2,
    R3,
    L3,
    START,
    SELECT,
    CAPTURE,
    HOME,
}

/// The protocol mnemonic of each logical button.
pub open spec fn spec_button_name(b: Button) -> Seq<char> {
    match b {
        Button::A => "A"@,
        Button::B => "B"@,
        Button::X => "X"@,
        Button::Y => "Y"@,
        Button::DPADRIGHT => "DRIGHT"@,
        Button::DPADDOWN => "DDOWN"@,
        Button::DPADLEFT => "DLEFT"@,
        Button::DPADUP => "DUP"@,
        Button::R1 => "R"@,
        Button::L1 => "L"@,
        Button::R2 => "ZR"@,
        Button::L2 => "ZL"@,
        Button::R3 => "RSTICK"@,
        Button::L3 => "LSTICK"@,
        Button::START => "PLUS"@,
        Button::SELECT => "MINUS"@,
        Button::CAPTURE => "CAPTURE"@,
        Button::HOME => "HOME"@,
    }
}

/// The protocol mnemonic of a logical button. Total over the closed button
/// set with no fallback arm: an unmapped button would be a compile-time
/// defect, not a runtime condition.
pub fn get_button_name(button: Button) -> (r: &'static str)
    ensures
        r@ == spec_button_name(button),
{
    match button {
        Button::A => "A",
        Button::B => "B",
        Button::X => "X",
        Button::Y => "Y",
        Button::DPADRIGHT => "DRIGHT",
        Button::DPADDOWN => "DDOWN",
        Button::DPADLEFT => "DLEFT",
        Button::DPADUP => "DUP",
        Button::R1 => "R",
        Button::L1 => "L",
        Button::R2 => "ZR",
        Button::L2 => "ZL",
        Button::R3 => "RSTICK",
        Button::L3 => "LSTICK",
        Button::START => "PLUS",
        Button::SELECT => "MINUS",
        Button::CAPTURE => "CAPTURE",
        Button::HOME => "HOME",
    }
}

/// A fingerprint of a protocol name: its length together with its first
/// two characters. It separates all eighteen mnemonics.
pub open spec fn name_tag(s: Seq<char>) -> int {
    (s.len() as int) * 1000000 + (s[0] as int) * 1000 + if s.len() > 1 {
        s[1] as int
    } else {
        0
    }
}

/// Each button's name carries a fingerprint no other name has.
proof fn lemma_name_tag_of(b: Button)
    ensures
        name_tag(spec_button_name(b)) == match b {
            Button::A => 1065000int,
            Button::B => 1066000int,
            Button::X => 1088000int,
            Button::Y => 1089000int,
            Button::DPADRIGHT => 6068082int,
            Button::DPADDOWN => 5068068int,
            Button::DPADLEFT => 5068076int,
            Button::DPADUP => 3068085int,
            Button::R1 => 1082000int,
            Button::L1 => 1076000int,
            Button::R2 => 2090082int,
            Button::L2 => 2090076int,
            Button::R3 => 6082083int,
            Button::L3 => 6076083int,
            Button::START => 4080076int,
            Button::SELECT => 5077073int,
            Button::CAPTURE => 7067065int,
            Button::HOME => 4072079int,
        },
{
    reveal_strlit("A");
    reveal_strlit("B");
    reveal_strlit("X");
    reveal_strlit("Y");
    reveal_strlit("DRIGHT");
    reveal_strlit("DDOWN");
    reveal_strlit("DLEFT");
    reveal_strlit("DUP");
    reveal_strlit("R");
    reveal_strlit("L");
    reveal_strlit("ZR");
    reveal_strlit("ZL");
    reveal_strlit("RSTICK");
    reveal_strlit("LSTICK");
    reveal_strlit("PLUS");
    reveal_strlit("MINUS");
    reveal_strlit("CAPTURE");
    reveal_strlit("HOME");
}

/// The mnemonic table is bijective on its input: no two distinct logical
/// buttons share a protocol name.
pub proof fn lemma_button_name_injective(b1: Button, b2: Button)
    requires
        spec_button_name(b1) == spec_button_name(b2),
    ensures
        b1 == b2,
{
    lemma_name_tag_of(b1);
    lemma_name_tag_of(b2);
}

/// The position of a logical button in the dense index space used by the
/// controller snapshot's button maps.
pub open spec fn btn_index(b: Button) -> int {
    match b {
        Button::A => 0,
        Button::B => 1,
        Button::X => 2,
        Button::Y => 3,
        Button::DPADRIGHT => 4,
        Button::DPADDOWN => 5,
        Button::DPADLEFT => 6,
        Button::DPADUP => 7,
        Button::R1 => 8,
        Button::L1 => 9,
        Button::R2 => 10,
        Button::L2 => 11,
        Button::R3 => 12,
        Button::L3 => 13,
        Button::START => 14,
        Button::SELECT => 15,
        Button::CAPTURE => 16,
        Button::HOME => 17,
    }
}

/// The logical button at a dense index.
pub open spec fn spec_button_of_index(i: int) -> Button {
    if i == 0 {
        Button::A
    } else if i == 1 {
        Button::B
    } else if i == 2 {
        Button::X
    } else if i == 3 {
        Button::Y
    } else if i == 4 {
        Button::DPADRIGHT
    } else if i == 5 {
        Button::DPADDOWN
    } else if i == 6 {
        Button::DPADLEFT
    } else if i == 7 {
        Button::DPADUP
    } else if i == 8 {
        Button::R1
    } else if i == 9 {
        Button::L1
    } else if i == 10 {
        Button::R2
    } else if i == 11 {
        Button::L2
    } else if i == 12 {
        Button::R3
    } else if i == 13 {
        Button::L3
    } else if i == 14 {
        Button::START
    } else if i == 15 {
        Button::SELECT
    } else if i == 16 {
        Button::CAPTURE
    } else {
        Button::HOME
    }
}

/// The dense index of a logical button.
pub fn button_index(b: Button) -> (i: usize)
    ensures
        i as int == btn_index(b),
        i < 18,
{
    match b {
        Button::A => 0,
        Button::B => 1,
        Button::X => 2,
        Button::Y => 3,
        Button::DPADRIGHT => 4,
        Button::DPADDOWN => 5,
        Button::DPADLEFT => 6,
        Button::DPADUP => 7,
        Button::R1 => 8,
        Button::L1 => 9,
        Button::R2 => 10,
        Button::L2 => 11,
        Button::R3 => 12,
        Button::L3 => 13,
        Button::START => 14,
        Button::SELECT => 15,
        Button::CAPTURE => 16,
        Button::HOME => 17,
    }
}

/// The logical button at a dense index.
pub fn button_of_index(i: usize) -> (b: Button)
    requires
        i < 18,
    ensures
        b == spec_button_of_index(i as int),
        btn_index(b) == i as int,
{
    match i {
        0 => Button::A,
        1 => Button::B,
        2 => Button::X,
        3 => Button::Y,
        4 => Button::DPADRIGHT,
        5 => Button::DPADDOWN,
        6 => Button::DPADLEFT,
        7 => Button::DPADUP,
        8 => Button::R1,
        9 => Button::L1,
        10 => Button::R2,
        11 => Button::L2,
        12 => Button::R3,
        13 => Button::L3,
        14 => Button::START,
        15 => Button::SELECT,
        16 => Button::CAPTURE,
        _ => Button::HOME,
    }
}

/// Every button's dense index lies inside the button maps.
pub proof fn lemma_btn_index_bounds(b: Button)
    ensures
        0 <= btn_index(b) < 18,
{
}

/// No two distinct buttons share a dense index.
pub proof fn lemma_btn_index_injective(b1: Button, b2: Button)
    requires
        btn_index(b1) == btn_index(b2),
    ensures
        b1 == b2,
{
}

/// Every button is the one found at its own dense index.
pub proof fn lemma_button_of_index_inverse(b: Button)
    ensures
        spec_button_of_index(btn_index(b)) == b,
{
}

/// The physical button vocabulary of the input source. The reconciler
/// consumes it only through the translation table below.
#[derive(Clone, Copy, PartialEq, Eq, Structural, Debug)]
pub enum PhysicalButton {
    South,
    East,
    North,
    West,
    C,
    Z,
    LeftTrigger,
    LeftTrigger2,
    RightTrigger,
    RightTrigger2,
    Select,
    Start,
    Mode,
    LeftThumb,
    RightThumb,
    DPadUp,
    DPadDown,
    DPadLeft,
    DPadRight,
    Unknown,
}

/// The translation table from the physical vocabulary to the logical one.
/// Physical buttons with no entry (`C`, `Z`) are silently ignored.
pub open spec fn spec_button_from_physical(p: PhysicalButton) -> Option<Button> {
    match p {
        PhysicalButton::East => Some(Button::A),
        PhysicalButton::South => Some(Button::B),
        PhysicalButton::West => Some(Button::Y),
        PhysicalButton::North => Some(Button::X),
        PhysicalButton::DPadRight => Some(Button::DPADRIGHT),
        PhysicalButton::DPadDown => Some(Button::DPADDOWN),
        PhysicalButton::DPadLeft => Some(Button::DPADLEFT),
        PhysicalButton::DPadUp => Some(Button::DPADUP),
        PhysicalButton::RightTrigger => Some(Button::R1),
        PhysicalButton::LeftTrigger => Some(Button::L1),
        PhysicalButton::RightTrigger2 => Some(Button::R2),
        PhysicalButton::LeftTrigger2 => Some(Button::L2),
        PhysicalButton::RightThumb => Some(Button::R3),
        PhysicalButton::LeftThumb => Some(Button::L3),
        PhysicalButton::Start => Some(Button::START),
        PhysicalButton::Select => Some(Button::SELECT),
        PhysicalButton::Mode => Some(Button::HOME),
        PhysicalButton::Unknown => Some(Button::CAPTURE),
        PhysicalButton::C => None,
        PhysicalButton::Z => None,
    }
}

/// The other direction of the same table: the physical identity that
/// stands for each logical button.
pub open spec fn spec_physical_of_button(b: Button) -> PhysicalButton {
    match b {
        Button::A => PhysicalButton::East,
        Button::B => PhysicalButton::South,
        Button::Y => PhysicalButton::West,
        Button::X => PhysicalButton::North,
        Button::DPADRIGHT => PhysicalButton::DPadRight,
        Button::DPADDOWN => PhysicalButton::DPadDown,
        Button::DPADLEFT => PhysicalButton::DPadLeft,
        Button::DPADUP => PhysicalButton::DPadUp,
        Button::R1 => PhysicalButton::RightTrigger,
        Button::L1 => PhysicalButton::LeftTrigger,
        Button::R2 => PhysicalButton::RightTrigger2,
        Button::L2 => PhysicalButton::LeftTrigger2,
        Button::R3 => PhysicalButton::RightThumb,
        Button::L3 => PhysicalButton::LeftThumb,
        Button::START => PhysicalButton::Start,
        Button::SELECT => PhysicalButton::Select,
        Button::HOME => PhysicalButton::Mode,
        Button::CAPTURE => PhysicalButton::Unknown,
    }
}

/// Translates a physical button to its logical counterpart, if it has one.
pub fn button_from_physical(p: PhysicalButton) -> (r: Option<Button>)
    ensures
        r == spec_button_from_physical(p),
{
    match p {
        PhysicalButton::East => Some(Button::A),
        PhysicalButton::South => Some(Button::B),
        PhysicalButton::West => Some(Button::Y),
        PhysicalButton::North => Some(Button::X),
        PhysicalButton::DPadRight => Some(Button::DPADRIGHT),
        PhysicalButton::DPadDown => Some(Button::DPADDOWN),
        PhysicalButton::DPadLeft => Some(Button::DPADLEFT),
        PhysicalButton::DPadUp => Some(Button::DPADUP),
        PhysicalButton::RightTrigger => Some(Button::R1),
        PhysicalButton::LeftTrigger => Some(Button::L1),
        PhysicalButton::RightTrigger2 => Some(Button::R2),
        PhysicalButton::LeftTrigger2 => Some(Button::L2),
        PhysicalButton::RightThumb => Some(Button::R3),
        PhysicalButton::LeftThumb => Some(Button::L3),
        PhysicalButton::Start => Some(Button::START),
        PhysicalButton::Select => Some(Button::SELECT),
        PhysicalButton::Mode => Some(Button::HOME),
        PhysicalButton::Unknown => Some(Button::CAPTURE),
        PhysicalButton::C => None,
        PhysicalButton::Z => None,
    }
}

/// The translation table is a bijection between the logical buttons and
/// the physical buttons that have an entry: the two directions invert
/// each other, so no two physical buttons share a logical one.
pub proof fn lemma_translation_bijective()
    ensures
        forall|b: Button| #[trigger] spec_button_from_physical(spec_physical_of_button(b))
            == Some(b),
        forall|p: PhysicalButton, b: Button|
            #![trigger spec_button_from_physical(p), spec_physical_of_button(b)]
            spec_button_from_physical(p) == Some(b) ==> spec_physical_of_button(b) == p,
{
}

} // verus!
