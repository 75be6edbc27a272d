//! The little language of the "warp to an object" box: a letter for the kind
//! of object, then the object's number. A lone `j` jumps back to where the
//! last warp started.

use vstd::prelude::*;
use vstd::string::StringSliceAdditionalSpecFns;

verus! {

/// The kinds of object that can be warped to.
#[derive(Clone, Copy, PartialEq, Eq, Structural, Debug)]
pub enum Target {
    Road,
    BusRoute,
    Lane,
    ParkingLot,
    Intersection,
    Building,
    Area,
    Pedestrian,
    Person,
    Car,
    Trip,
}

/// What a line typed into the box asks for.
#[derive(Clone, Copy, PartialEq, Eq, Structural, Debug)]
pub enum WarpCommand {
    /// The line names nothing.
    Invalid,
    /// Go back to where the last warp started.
    JumpBack,
    /// Go to the object of kind `target` with number `index`.
    Goto { target: Target, index: usize },
}

/// The kind of object that a letter stands for.
pub open spec fn target_of(letter: u8) -> Option<Target> {
    if letter == 'r' as u8 {
        Some(Target::Road)
    } else if letter == 'R' as u8 {
        Some(Target::BusRoute)
    } else if letter == 'l' as u8 {
        Some(Target::Lane)
    } else if letter == 'L' as u8 {
        Some(Target::ParkingLot)
    } else if letter == 'i' as u8 {
        Some(Target::Intersection)
    } else if letter == 'b' as u8 {
        Some(Target::Building)
    } else if letter == 'a' as u8 {
        Some(Target::Area)
    } else if letter == 'p' as u8 {
        Some(Target::Pedestrian)
    } else if letter == 'P' as u8 {
        Some(Target::Person)
    } else if letter == 'c' as u8 {
        Some(Target::Car)
    } else if letter == 't' as u8 {
        Some(Target::Trip)
    } else {
        None
    }
}

pub open spec fn is_digit(byte: u8) -> bool {
    '0' as u8 <= byte <= '9' as u8
}

pub open spec fn all_digits(text: Seq<u8>) -> bool {
    forall|i: int| 0 <= i < text.len() ==> is_digit(#[trigger] text[i])
}

/// The number that a run of decimal digits writes.
pub open spec fn digits_value(digits: Seq<u8>) -> nat
    decreases digits.len(),
{
    if digits.len() == 0 {
        0
    } else {
        (digits_value(digits.drop_last()) * 10 + (digits.last() - '0' as u8)) as nat
    }
}

/// The number that `text` writes in decimal: digits only, at least one, with
/// an optional `+` in front, and a value that fits the machine's word.
pub open spec fn index_of(text: Seq<u8>) -> Option<usize> {
    let digits = if text.len() > 0 && text[0] == '+' as u8 {
        text.skip(1)
    } else {
        text
    };
    if digits.len() > 0 && all_digits(digits) && digits_value(digits) <= usize::MAX {
        Some(digits_value(digits) as usize)
    } else {
        None
    }
}

/// What the line with the bytes `line` asks for.
pub open spec fn command_of(line: Seq<u8>) -> WarpCommand {
    if line.len() == 0 {
        WarpCommand::Invalid
    } else if line =~= seq!['j' as u8] {
        WarpCommand::JumpBack
    } else {
        match (index_of(line.skip(1)), target_of(line[0])) {
            (Some(index), Some(target)) => WarpCommand::Goto { target, index },
            _ => WarpCommand::Invalid,
        }
    }
}

/// A run of digits writes at least what any of its beginnings writes.
proof fn lemma_value_grows(digits: Seq<u8>, k: int)
    requires
        0 <= k <= digits.len(),
        all_digits(digits),
    ensures
        digits_value(digits.subrange(0, k)) <= digits_value(digits),
    decreases digits.len() - k,
{
    if k == digits.len() {
        assert(digits.subrange(0, k) =~= digits);
    } else {
        let longer = digits.subrange(0, k + 1);
        assert(longer.drop_last() =~= digits.subrange(0, k));
        assert(is_digit(digits[k]));
        assert(longer.last() == digits[k]);
        lemma_value_grows(digits, k + 1);
    }
}

/// Reads the number that the bytes of `bytes` from `from` on write.
fn parse_index(bytes: &[u8], from: usize) -> (index: Option<usize>)
    requires
        from <= bytes@.len(),
    ensures
        index == index_of(bytes@.skip(from as int)),
{
    let ghost text = bytes@.skip(from as int);
    let mut start: usize = from;
    if start < bytes.len() && bytes[start] == '+' as u8 {
        start = start + 1;
    }
    let ghost digits = bytes@.skip(start as int);
    assert(digits =~= if text.len() > 0 && text[0] == '+' as u8 {
        text.skip(1)
    } else {
        text
    });
    if start == bytes.len() {
        return None;
    }
    let mut value: usize = 0;
    let mut i: usize = start;
    while i < bytes.len()
        invariant
            start <= i <= bytes@.len(),
            digits == bytes@.skip(start as int),
            index_of(bytes@.skip(from as int)) == if all_digits(digits) && digits_value(digits)
                <= usize::MAX {
                Some(digits_value(digits) as usize)
            } else {
                None
            },
            all_digits(digits.subrange(0, i - start)),
            value == digits_value(digits.subrange(0, i - start)),
        decreases bytes@.len() - i,
    {
        let byte: u8 = bytes[i];
        let ghost seen = digits.subrange(0, i - start);
        let ghost longer = digits.subrange(0, i + 1 - start);
        assert(longer.drop_last() =~= seen);
        assert(longer.last() == byte);
        if byte < ('0' as u8) || byte > ('9' as u8) {
            assert(!is_digit(digits[i - start]));
            return None;
        }
        assert(all_digits(longer)) by {
            assert forall|j: int| 0 <= j < longer.len() implies is_digit(#[trigger] longer[j]) by {
                if j < seen.len() {
                    assert(longer[j] == seen[j]);
                }
            }
        }
        let next = match value.checked_mul(10) {
            Some(tens) => tens.checked_add((byte - '0' as u8) as usize),
            None => None,
        };
        match next {
            Some(v) => {
                value = v;
            },
            None => {
                proof {
                    assert(digits_value(longer) > usize::MAX);
                    if all_digits(digits) {
                        lemma_value_grows(digits, i + 1 - start);
                    }
                }
                return None;
            },
        }
        i = i + 1;
    }
    assert(digits.subrange(0, i - start) =~= digits);
    Some(value)
}

/// The kind of object that a letter stands for.
pub fn target_for(letter: u8) -> (target: Option<Target>)
    ensures
        target == target_of(letter),
{
    if letter == 'r' as u8 {
        Some(Target::Road)
    } else if letter == 'R' as u8 {
        Some(Target::BusRoute)
    } else if letter == 'l' as u8 {
        Some(Target::Lane)
    } else if letter == 'L' as u8 {
        Some(Target::ParkingLot)
    } else if letter == 'i' as u8 {
        Some(Target::Intersection)
    } else if letter == 'b' as u8 {
        Some(Target::Building)
    } else if letter == 'a' as u8 {
        Some(Target::Area)
    } else if letter == 'p' as u8 {
        Some(Target::Pedestrian)
    } else if letter == 'P' as u8 {
        Some(Target::Person)
    } else if letter == 'c' as u8 {
        Some(Target::Car)
    } else if letter == 't' as u8 {
        Some(Target::Trip)
    } else {
        None
    }
}

/// Reads a line typed into the box. The number starts at the line's second
/// byte, so the first character has to be a single byte.
pub fn parse_warp(line: &str) -> (command: WarpCommand)
    requires
        line.spec_bytes().len() > 0 ==> line.spec_bytes()[0] < 128,
    ensures
        command == command_of(line.spec_bytes()),
{
    let bytes = line.as_bytes();
    if bytes.len() == 0 {
        return WarpCommand::Invalid;
    }
    if bytes.len() == 1 && bytes[0] == 'j' as u8 {
        assert(bytes@ =~= seq!['j' as u8]);
        return WarpCommand::JumpBack;
    }
    assert(!(bytes@ =~= seq!['j' as u8])) by {
        if bytes@ =~= seq!['j' as u8] {
            assert(bytes@.len() == 1);
            assert(bytes@[0] == 'j' as u8);
        }
    }
    match parse_index(bytes, 1) {
        Some(index) => match target_for(bytes[0]) {
            Some(target) => WarpCommand::Goto { target, index },
            None => WarpCommand::Invalid,
        },
        None => WarpCommand::Invalid,
    }
}

/// The message for the line `input`, which names nothing.
pub fn bad_id_message(input: &str) -> (message: String)
    ensures
        message@ == input@ + " isn't a valid ID"@,
{
    let mut message = String::from_str(input);
    message.append(" isn't a valid ID");
    message
}

/// What the box does after its panel reported.
#[derive(Clone, Copy, PartialEq, Eq, Structural, Debug)]
pub enum BoxAction {
    /// Close the box.
    Close,
    /// Act on the line that the input holds.
    Go,
    /// Stay as it is.
    Keep,
}

/// What the box does when the button named `clicked` was pressed, or none.
pub open spec fn box_action_of(clicked: Option<Seq<char>>) -> BoxAction {
    match clicked {
        None => BoxAction::Keep,
        Some(name) => if name == "close"@ {
            BoxAction::Close
        } else {
            BoxAction::Go
        },
    }
}

/// One tick of the box. Its panel has the two buttons `close` and `Go!`, so
/// a click names one of them.
pub fn debug_warp_event(clicked: Option<&str>) -> (action: BoxAction)
    requires
        clicked matches Some(name) ==> (name@ == "close"@ || name@ == "Go!"@),
    ensures
        action == box_action_of(
            match clicked {
                Some(name) => Some(name@),
                None => None,
            },
        ),
{
    match clicked {
        None => BoxAction::Keep,
        Some(name) => {
            let pressed = String::from_str(name);
            let close = String::from_str("close");
            if pressed == close {
                BoxAction::Close
            } else {
                BoxAction::Go
            }
        },
    }
}

/// What the state stack does after a step of the camera's flight.
#[derive(Clone, Copy, PartialEq, Eq, Structural, Debug)]
pub enum FlightStep {
    /// The camera is still on its way.
    Keep,
    /// The flight is over.
    Pop,
    /// The flight is over; open the panel of the object it went to.
    PopAndOpenPanel(Target, usize),
}

/// One tick of a warp in flight to `object`.
pub fn warping_event(still_moving: bool, object: Option<(Target, usize)>) -> (step: FlightStep)
    ensures
        step == (if still_moving {
            FlightStep::Keep
        } else {
            match object {
                Some((target, index)) => FlightStep::PopAndOpenPanel(target, index),
                None => FlightStep::Pop,
            }
        }),
{
    if still_moving {
        FlightStep::Keep
    } else {
        match object {
            Some((target, index)) => FlightStep::PopAndOpenPanel(target, index),
            None => FlightStep::Pop,
        }
    }
}

} // verus!
