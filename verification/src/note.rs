//! Names of MIDI notes: pitch class and octave.

use vstd::prelude::*;
use vstd::string::*;

verus! {

/// Semitones in an octave, and so the number of pitch classes.
pub const SIGN_COUNT: u8 = 12;

/// The sign of a pitch class, counted in semitones above C.
pub open spec fn pitch_class_sign(class: int) -> Seq<char> {
    if class == 0 {
        seq!['C']
    } else if class == 1 {
        seq!['C', '#']
    } else if class == 2 {
        seq!['D']
    } else if class == 3 {
        seq!['D', '#']
    } else if class == 4 {
        seq!['E']
    } else if class == 5 {
        seq!['F']
    } else if class == 6 {
        seq!['F', '#']
    } else if class == 7 {
        seq!['G']
    } else if class == 8 {
        seq!['G', '#']
    } else if class == 9 {
        seq!['A']
    } else if class == 10 {
        seq!['A', '#']
    } else {
        seq!['B']
    }
}

/// The octave a note lies in. Note 0 lies in octave -1, note 60 in octave 4.
pub open spec fn octave_of(note: int) -> int {
    note / 12 - 1
}

/// The character of one decimal digit.
pub open spec fn digit_char(digit: int) -> char {
    seq!['0', '1', '2', '3', '4', '5', '6', '7', '8', '9'][digit]
}

/// A natural number in decimal, without leading zeros.
pub open spec fn decimal(n: nat) -> Seq<char>
    decreases n,
{
    if n < 10 {
        seq![digit_char(n as int)]
    } else {
        decimal(n / 10).push(digit_char((n % 10) as int))
    }
}

/// An integer in decimal, with a minus sign where it is negative.
pub open spec fn signed_decimal(i: int) -> Seq<char> {
    if i < 0 {
        seq!['-'] + decimal((-i) as nat)
    } else {
        decimal(i as nat)
    }
}

/// The name of a note: the sign of its pitch class, then its octave.
pub open spec fn note_sign(note: int) -> Seq<char> {
    pitch_class_sign(note % 12) + signed_decimal(octave_of(note))
}

fn pitch_class_str(class: u8) -> (sign: &'static str)
    requires
        class < SIGN_COUNT,
    ensures
        sign@ == pitch_class_sign(class as int),
{
    proof {
        reveal_strlit("C");
        reveal_strlit("C#");
        reveal_strlit("D");
        reveal_strlit("D#");
        reveal_strlit("E");
        reveal_strlit("F");
        reveal_strlit("F#");
        reveal_strlit("G");
        reveal_strlit("G#");
        reveal_strlit("A");
        reveal_strlit("A#");
        reveal_strlit("B");
    }
    let sign = match class {
        0 => "C",
        1 => "C#",
        2 => "D",
        3 => "D#",
        4 => "E",
        5 => "F",
        6 => "F#",
        7 => "G",
        8 => "G#",
        9 => "A",
        10 => "A#",
        _ => "B",
    };
    assert(sign@ =~= pitch_class_sign(class as int));
    sign
}

fn digit_str(digit: u8) -> (text: &'static str)
    requires
        digit < 10,
    ensures
        text@ == seq![digit_char(digit as int)],
{
    proof {
        reveal_strlit("0");
        reveal_strlit("1");
        reveal_strlit("2");
        reveal_strlit("3");
        reveal_strlit("4");
        reveal_strlit("5");
        reveal_strlit("6");
        reveal_strlit("7");
        reveal_strlit("8");
        reveal_strlit("9");
    }
    let text = match digit {
        0 => "0",
        1 => "1",
        2 => "2",
        3 => "3",
        4 => "4",
        5 => "5",
        6 => "6",
        7 => "7",
        8 => "8",
        _ => "9",
    };
    assert(text@ =~= seq![digit_char(digit as int)]);
    text
}

/// Names a note: `"C-1"` for 0, `"C4"` for 60, `"G9"` for 127.
///
/// Total over `u8`; the values above 127, which MIDI does not use, are named
/// by the same rule.
pub fn note_number_to_sign(x: u8) -> (sign: String)
    ensures
        sign@ == note_sign(x as int),
{
    let mut sign = String::from_str(pitch_class_str(x % SIGN_COUNT));
    let octaves: u8 = x / SIGN_COUNT;
    if octaves == 0 {
        proof {
            reveal_strlit("-1");
            assert("-1"@ =~= signed_decimal(-1)) by {
                reveal_with_fuel(decimal, 2);
            }
        }
        sign.append("-1");
    } else {
        let octave: u8 = octaves - 1;
        if octave >= 10 {
            sign.append(digit_str(octave / 10));
        }
        sign.append(digit_str(octave % 10));
        proof {
            reveal_with_fuel(decimal, 3);
            assert(sign@ =~= note_sign(x as int));
        }
    }
    sign
}

} // verus!
