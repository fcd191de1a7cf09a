//! The packet synthesizer: turns one tick's delta into protocol command
//! strings, and encodes them for the two transports.
//!
//! Digital commands read `click <NAME>`, `press <NAME>` or
//! `release <NAME>`; analog commands read `setStick <SIDE> <HEX_X> <HEX_Y>`
//! with each coordinate rendered as a signed, zero-padded, uppercase
//! four-digit hexadecimal literal. The hardware transport takes each
//! command as a binary frame prefixed with its byte length plus two as a
//! four-byte little-endian integer; the network transport takes the
//! command text with a CRLF terminator.

use vstd::prelude::*;
use vstd::string::StrSliceExecFns;
use vstd::string::StringExecFns;
use vstd::utf8::encode_utf8;
use crate::buttons::Button;
use crate::buttons::button_of_index;
use crate::buttons::spec_button_of_index;
use crate::buttons::spec_button_name;
use crate::buttons::get_button_name;
use crate::state::ButtonState;
use crate::state::ControllerState;

verus! {

/// One of the two analog sticks.
#[derive(Clone, Copy, PartialEq, Eq, Structural, Debug)]
pub enum Stick {
    RIGHT,
    LEFT,
}

/// The uppercase hexadecimal digit of a value below sixteen.
pub open spec fn spec_hex_char(d: int) -> char {
    if d == 0 {
        '0'
    } else if d == 1 {
        '1'
    } else if d == 2 {
        '2'
    } else if d == 3 {
        '3'
    } else if d == 4 {
        '4'
    } else if d == 5 {
        '5'
    } else if d == 6 {
        '6'
    } else if d == 7 {
        '7'
    } else if d == 8 {
        '8'
    } else if d == 9 {
        '9'
    } else if d == 10 {
        'A'
    } else if d == 11 {
        'B'
    } else if d == 12 {
        'C'
    } else if d == 13 {
        'D'
    } else if d == 14 {
        'E'
    } else {
        'F'
    }
}

/// The value of an uppercase hexadecimal digit.
pub open spec fn spec_hex_val(c: char) -> int {
    if c == '0' {
        0
    } else if c == '1' {
        1
    } else if c == '2' {
        2
    } else if c == '3' {
        3
    } else if c == '4' {
        4
    } else if c == '5' {
        5
    } else if c == '6' {
        6
    } else if c == '7' {
        7
    } else if c == '8' {
        8
    } else if c == '9' {
        9
    } else if c == 'A' {
        10
    } else if c == 'B' {
        11
    } else if c == 'C' {
        12
    } else if c == 'D' {
        13
    } else if c == 'E' {
        14
    } else {
        15
    }
}

/// The four zero-padded uppercase hexadecimal digits of a magnitude.
pub open spec fn spec_hex4(m: int) -> Seq<char> {
    seq![
        spec_hex_char(m / 4096 % 16),
        spec_hex_char(m / 256 % 16),
        spec_hex_char(m / 16 % 16),
        spec_hex_char(m % 16),
    ]
}

/// The signed hexadecimal rendering of a stick coordinate: `0x` and four
/// digits for a non-negative value, `-0x` and the four digits of the
/// absolute value otherwise.
pub open spec fn spec_hex_string(n: int) -> Seq<char> {
    if n < 0 {
        "-0x"@ + spec_hex4(-n)
    } else {
        "0x"@ + spec_hex4(n)
    }
}

/// The number a rendered coordinate denotes: the inverse of
/// `spec_hex_string` on its image.
pub open spec fn spec_unhex4(s: Seq<char>) -> int {
    spec_hex_val(s[0]) * 4096 + spec_hex_val(s[1]) * 256 + spec_hex_val(s[2]) * 16 + spec_hex_val(
        s[3],
    )
}

/// Reads a signed four-digit hexadecimal literal back into a number.
pub open spec fn spec_parse_hex(s: Seq<char>) -> int {
    if s.len() > 0 && s[0] == '-' {
        -spec_unhex4(s.subrange(3, 7))
    } else {
        spec_unhex4(s.subrange(2, 6))
    }
}

/// A one-character string slice holding one hexadecimal digit.
fn hex_digit_str(d: u32) -> (r: &'static str)
    requires
        d < 16,
    ensures
        r@ == seq![spec_hex_char(d as int)],
{
    if d == 0 {
        proof {
            reveal_strlit("0");
            assert("0"@ =~= seq!['0']);
        }
        "0"
    } else if d == 1 {
        proof {
            reveal_strlit("1");
            assert("1"@ =~= seq!['1']);
        }
        "1"
    } else if d == 2 {
        proof {
            reveal_strlit("2");
            assert("2"@ =~= seq!['2']);
        }
        "2"
    } else if d == 3 {
        proof {
            reveal_strlit("3");
            assert("3"@ =~= seq!['3']);
        }
        "3"
    } else if d == 4 {
        proof {
            reveal_strlit("4");
            assert("4"@ =~= seq!['4']);
        }
        "4"
    } else if d == 5 {
        proof {
            reveal_strlit("5");
            assert("5"@ =~= seq!['5']);
        }
        "5"
    } else if d == 6 {
        proof {
            reveal_strlit("6");
            assert("6"@ =~= seq!['6']);
        }
        "6"
    } else if d == 7 {
        proof {
            reveal_strlit("7");
            assert("7"@ =~= seq!['7']);
        }
        "7"
    } else if d == 8 {
        proof {
            reveal_strlit("8");
            assert("8"@ =~= seq!['8']);
        }
        "8"
    } else if d == 9 {
        proof {
            reveal_strlit("9");
            assert("9"@ =~= seq!['9']);
        }
        "9"
    } else if d == 10 {
        proof {
            reveal_strlit("A");
            assert("A"@ =~= seq!['A']);
        }
        "A"
    } else if d == 11 {
        proof {
            reveal_strlit("B");
            assert("B"@ =~= seq!['B']);
        }
        "B"
    } else if d == 12 {
        proof {
            reveal_strlit("C");
            assert("C"@ =~= seq!['C']);
        }
        "C"
    } else if d == 13 {
        proof {
            reveal_strlit("D");
            assert("D"@ =~= seq!['D']);
        }
        "D"
    } else if d == 14 {
        proof {
            reveal_strlit("E");
            assert("E"@ =~= seq!['E']);
        }
        "E"
    } else {
        proof {
            reveal_strlit("F");
            assert("F"@ =~= seq!['F']);
        }
        "F"
    }
}

/// The four zero-padded digits of a magnitude, as a string.
fn to_hex4(m: u32) -> (r: String)
    ensures
        r@ == spec_hex4(m as int),
{
    let mut s = String::new();
    s.append(hex_digit_str(m / 4096 % 16));
    s.append(hex_digit_str(m / 256 % 16));
    s.append(hex_digit_str(m / 16 % 16));
    s.append(hex_digit_str(m % 16));
    proof {
        assert(s@ =~= spec_hex4(m as int));
    }
    s
}

/// Renders a stick coordinate as a signed hexadecimal literal. A value
/// outside the signed 16-bit range would be a defect upstream, so it is
/// ruled out rather than clamped a second time.
pub fn to_hex_string(n: i32) -> (r: String)
    requires
        -0x8000 <= n <= 0x7FFF,
    ensures
        r@ == spec_hex_string(n as int),
{
    if n < 0 {
        let m: u32 = (-(n as i64)) as u32;
        let mut s = String::from_str("-0x");
        let digits = to_hex4(m);
        s.append(digits.as_str());
        s
    } else {
        let m: u32 = n as u32;
        let mut s = String::from_str("0x");
        let digits = to_hex4(m);
        s.append(digits.as_str());
        s
    }
}

/// A digit survives the round trip through its character.
proof fn lemma_hex_char_val(d: int)
    requires
        0 <= d < 16,
    ensures
        spec_hex_val(spec_hex_char(d)) == d,
{
}

/// The four digits of a magnitude below 65536 recompose to it.
proof fn lemma_hex4_digits(m: u32)
    requires
        m < 65536,
    ensures
        (m / 4096 % 16) * 4096 + (m / 256 % 16) * 256 + (m / 16 % 16) * 16 + m % 16 == m,
{
    assert((m / 4096 % 16) * 4096 + (m / 256 % 16) * 256 + (m / 16 % 16) * 16 + m % 16 == m)
        by (bit_vector)
        requires
            m < 65536,
    ;
}

/// Reading a rendered magnitude's digits gives the magnitude back.
proof fn lemma_unhex4_hex4(m: u32)
    requires
        m < 65536,
    ensures
        spec_unhex4(spec_hex4(m as int)) == m,
{
    lemma_hex_char_val(m as int / 4096 % 16);
    lemma_hex_char_val(m as int / 256 % 16);
    lemma_hex_char_val(m as int / 16 % 16);
    lemma_hex_char_val(m as int % 16);
    lemma_hex4_digits(m);
}

/// The coordinate rendering round-trips: reading the rendered form of any
/// value in the signed 16-bit domain gives the value back, so the
/// rendering is a bijection between that domain and its image.
pub proof fn lemma_hex_round_trip(n: int)
    requires
        -0x8000 <= n <= 0x7FFF,
    ensures
        spec_parse_hex(spec_hex_string(n)) == n,
{
    reveal_strlit("0x");
    reveal_strlit("-0x");
    if n < 0 {
        let s = spec_hex_string(n);
        assert(s.len() == 7);
        assert(s[0] == '-');
        assert(s.subrange(3, 7) =~= spec_hex4(-n));
        lemma_unhex4_hex4((-n) as u32);
    } else {
        let s = spec_hex_string(n);
        assert(s.len() == 6);
        assert(s[0] == '0');
        assert(s.subrange(2, 6) =~= spec_hex4(n));
        lemma_unhex4_hex4(n as u32);
    }
}

/// No two distinct coordinates share a rendered form.
pub proof fn lemma_hex_injective(n1: int, n2: int)
    requires
        -0x8000 <= n1 <= 0x7FFF,
        -0x8000 <= n2 <= 0x7FFF,
        spec_hex_string(n1) == spec_hex_string(n2),
    ensures
        n1 == n2,
{
    lemma_hex_round_trip(n1);
    lemma_hex_round_trip(n2);
}

/// The command verb of a button transition state.
pub open spec fn spec_verb(state: ButtonState) -> Seq<char> {
    match state {
        ButtonState::PRESSED => "click "@,
        ButtonState::HELD => "press "@,
        ButtonState::RELEASED => "release "@,
    }
}

/// The digital command for one button with its reported state.
pub open spec fn spec_button_packet(b: Button, state: ButtonState) -> Seq<char> {
    spec_verb(state) + spec_button_name(b)
}

/// The analog command for one stick at a position.
pub open spec fn spec_stick_packet(stick: Stick, x: int, y: int) -> Seq<char> {
    (match stick {
        Stick::RIGHT => "setStick RIGHT "@,
        Stick::LEFT => "setStick LEFT "@,
    }) + spec_hex_string(x) + " "@ + spec_hex_string(y)
}

/// Builds the digital command string for one button.
pub fn make_packet_for_button_state(button: Button, state: ButtonState) -> (r: String)
    ensures
        r@ == spec_button_packet(button, state),
{
    let mut s = match state {
        ButtonState::PRESSED => String::from_str("click "),
        ButtonState::HELD => String::from_str("press "),
        ButtonState::RELEASED => String::from_str("release "),
    };
    s.append(get_button_name(button));
    s
}

/// Builds the analog command string for one stick position.
pub fn make_packet_for_stick(stick: Stick, value: (i32, i32)) -> (r: String)
    requires
        -0x8000 <= value.0 <= 0x7FFF,
        -0x8000 <= value.1 <= 0x7FFF,
    ensures
        r@ == spec_stick_packet(stick, value.0 as int, value.1 as int),
{
    let mut s = match stick {
        Stick::RIGHT => String::from_str("setStick RIGHT "),
        Stick::LEFT => String::from_str("setStick LEFT "),
    };
    let hx = to_hex_string(value.0);
    s.append(hx.as_str());
    s.append(" ");
    let hy = to_hex_string(value.1);
    s.append(hy.as_str());
    s
}

/// The digital commands of the buttons with dense index below `i`, in
/// index order: one command per button whose effective state this tick is
/// not idle.
pub open spec fn spec_button_packets_upto(s: ControllerState, i: int) -> Seq<Seq<char>>
    decreases i,
{
    if i <= 0 {
        Seq::empty()
    } else {
        spec_button_packets_upto(s, i - 1) + (match s.eff_of(spec_button_of_index(i - 1)) {
            Some(st) => seq![spec_button_packet(spec_button_of_index(i - 1), st)],
            None => Seq::empty(),
        })
    }
}

/// The analog commands of the tick: one per stick whose position differs
/// from the previous tick's, right stick first.
pub open spec fn spec_stick_packets(s: ControllerState) -> Seq<Seq<char>> {
    (if s.old_r_stick != s.r_stick {
        seq![spec_stick_packet(Stick::RIGHT, s.r_stick.0 as int, s.r_stick.1 as int)]
    } else {
        Seq::empty()
    }) + (if s.old_l_stick != s.l_stick {
        seq![spec_stick_packet(Stick::LEFT, s.l_stick.0 as int, s.l_stick.1 as int)]
    } else {
        Seq::empty()
    })
}

/// One tick's delta as command strings: all digital commands, in button
/// index order, then the analog commands.
pub open spec fn spec_make_packets(s: ControllerState) -> Seq<Seq<char>> {
    spec_button_packets_upto(s, 18) + spec_stick_packets(s)
}

impl ControllerState {
    /// Produces the tick's delta as protocol command strings: one digital
    /// command per button whose effective state is not idle, then one
    /// analog command per stick whose position changed since the previous
    /// tick. A pure read; the snapshot is not mutated.
    pub fn make_packets(&self) -> (r: Vec<String>)
        requires
            self.wf(),
        ensures
            r@.len() == spec_make_packets(*self).len(),
            forall|i: int| 0 <= i < r@.len() ==> r@[i]@ == spec_make_packets(*self)[i],
    {
        let mut packets: Vec<String> = Vec::new();
        let mut i: usize = 0;
        while i < 18
            invariant
                self.wf(),
                i <= 18,
                packets@.len() == spec_button_packets_upto(*self, i as int).len(),
                forall|j: int| 0 <= j < packets@.len() ==> packets@[j]@
                    == spec_button_packets_upto(*self, i as int)[j],
            decreases 18 - i,
        {
            let b = button_of_index(i);
            let eff: Option<ButtonState> = match self.button_states[i] {
                Some(s) => Some(s),
                None => match self.old_state[i] {
                    Some(ButtonState::PRESSED) => Some(ButtonState::HELD),
                    Some(ButtonState::HELD) => Some(ButtonState::HELD),
                    _ => None,
                },
            };
            proof {
                assert(eff == self.eff_of(b));
                assert(spec_button_packets_upto(*self, i + 1) == spec_button_packets_upto(
                    *self,
                    i as int,
                ) + (match self.eff_of(b) {
                    Some(st) => seq![spec_button_packet(b, st)],
                    None => Seq::<Seq<char>>::empty(),
                }));
            }
            if let Some(st) = eff {
                packets.push(make_packet_for_button_state(b, st));
            }
            proof {
                assert(packets@.len() == spec_button_packets_upto(*self, i + 1).len());
            }
            i += 1;
        }
        if self.old_r_stick.0 != self.r_stick.0 || self.old_r_stick.1 != self.r_stick.1 {
            packets.push(make_packet_for_stick(Stick::RIGHT, self.r_stick));
        }
        if self.old_l_stick.0 != self.l_stick.0 || self.old_l_stick.1 != self.l_stick.1 {
            packets.push(make_packet_for_stick(Stick::LEFT, self.l_stick));
        }
        proof {
            assert(packets@.len() == spec_make_packets(*self).len());
            assert(forall|j: int| 0 <= j < packets@.len() ==> packets@[j]@ == spec_make_packets(
                *self,
            )[j]);
        }
        packets
    }
}

/// The four little-endian bytes of a frame's length prefix.
pub open spec fn spec_le4(n: int) -> Seq<u8> {
    seq![
        (n % 256) as u8,
        ((n / 256) % 256) as u8,
        ((n / 65536) % 256) as u8,
        ((n / 16777216) % 256) as u8,
    ]
}

/// Encodes command strings for the hardware transport: for each command,
/// a four-byte little-endian prefix holding its byte length plus two,
/// then the command's raw bytes, as two entries of the result.
pub fn build_packets(data: Vec<String>) -> (r: Vec<Vec<u8>>)
    requires
        forall|i: int| 0 <= i < data@.len() ==> encode_utf8(#[trigger] data@[i]@).len() as int + 2
            <= 0x7FFFFFFF,
    ensures
        r@.len() == 2 * data@.len(),
        forall|i: int| 0 <= i < data@.len() ==> #[trigger] r@[2 * i]@ == spec_le4(
            encode_utf8(data@[i]@).len() as int + 2,
        ),
        forall|i: int| 0 <= i < data@.len() ==> #[trigger] r@[2 * i + 1]@ == encode_utf8(
            data@[i]@,
        ),
{
    let mut r: Vec<Vec<u8>> = Vec::new();
    let mut i: usize = 0;
    while i < data.len()
        invariant
            forall|k: int| 0 <= k < data@.len() ==> encode_utf8(#[trigger] data@[k]@).len() as int + 2
                <= 0x7FFFFFFF,
            i <= data@.len(),
            r@.len() == 2 * i,
            forall|k: int| 0 <= k < i ==> #[trigger] r@[2 * k]@ == spec_le4(
                encode_utf8(data@[k]@).len() as int + 2,
            ),
            forall|k: int| 0 <= k < i ==> #[trigger] r@[2 * k + 1]@ == encode_utf8(data@[k]@),
        decreases data@.len() - i,
    {
        let s = &data[i];
        let n: usize = s.as_str().len() + 2;
        let mut prefix: Vec<u8> = Vec::new();
        prefix.push((n % 256) as u8);
        prefix.push((n / 256 % 256) as u8);
        prefix.push((n / 65536 % 256) as u8);
        prefix.push((n / 16777216 % 256) as u8);
        proof {
            assert(prefix@ =~= spec_le4(encode_utf8(data@[i as int]@).len() as int + 2));
        }
        r.push(prefix);
        r.push(s.as_str().as_bytes_vec());
        i += 1;
    }
    r
}

/// Encodes one command string for the network transport: the command text
/// with a CRLF terminator appended.
pub fn make_network_line(packet: &str) -> (r: String)
    ensures
        r@ == packet@ + "\r\n"@,
{
    let mut s = String::from_str(packet);
    s.append("\r\n");
    s
}

} // verus!
