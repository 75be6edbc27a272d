use resource_loader::warp::{
    bad_id_message, debug_warp_event, parse_warp, target_for, warping_event, BoxAction,
    FlightStep, Target, WarpCommand,
};

fn goto(target: Target, index: usize) -> WarpCommand {
    WarpCommand::Goto { target, index }
}

#[test]
fn empty_line_names_nothing() {
    assert_eq!(parse_warp(""), WarpCommand::Invalid);
}

#[test]
fn lone_j_jumps_back() {
    assert_eq!(parse_warp("j"), WarpCommand::JumpBack);
}

#[test]
fn j_with_a_number_names_nothing() {
    assert_eq!(parse_warp("j1"), WarpCommand::Invalid);
    assert_eq!(parse_warp("jj"), WarpCommand::Invalid);
}

#[test]
fn each_letter_has_its_kind() {
    assert_eq!(parse_warp("r42"), goto(Target::Road, 42));
    assert_eq!(parse_warp("R3"), goto(Target::BusRoute, 3));
    assert_eq!(parse_warp("l0"), goto(Target::Lane, 0));
    assert_eq!(parse_warp("L17"), goto(Target::ParkingLot, 17));
    assert_eq!(parse_warp("i5"), goto(Target::Intersection, 5));
    assert_eq!(parse_warp("b123456"), goto(Target::Building, 123456));
    assert_eq!(parse_warp("a9"), goto(Target::Area, 9));
    assert_eq!(parse_warp("p11"), goto(Target::Pedestrian, 11));
    assert_eq!(parse_warp("P20"), goto(Target::Person, 20));
    assert_eq!(parse_warp("c77"), goto(Target::Car, 77));
    assert_eq!(parse_warp("t8"), goto(Target::Trip, 8));
}

#[test]
fn unknown_letters_name_nothing() {
    assert_eq!(parse_warp("x1"), WarpCommand::Invalid);
    assert_eq!(parse_warp("42"), WarpCommand::Invalid);
    assert_eq!(parse_warp("B1"), WarpCommand::Invalid);
    assert_eq!(target_for(b'z'), None);
    assert_eq!(target_for(b'r'), Some(Target::Road));
}

#[test]
fn the_number_has_to_be_a_number() {
    assert_eq!(parse_warp("r"), WarpCommand::Invalid);
    assert_eq!(parse_warp("r+"), WarpCommand::Invalid);
    assert_eq!(parse_warp("r-1"), WarpCommand::Invalid);
    assert_eq!(parse_warp("r 1"), WarpCommand::Invalid);
    assert_eq!(parse_warp("r1 "), WarpCommand::Invalid);
    assert_eq!(parse_warp("r1a"), WarpCommand::Invalid);
    assert_eq!(parse_warp("r1.5"), WarpCommand::Invalid);
    assert_eq!(parse_warp("r\u{e9}"), WarpCommand::Invalid);
    assert_eq!(parse_warp("r++1"), WarpCommand::Invalid);
}

#[test]
fn a_plus_sign_and_leading_zeros_are_read() {
    assert_eq!(parse_warp("r+7"), goto(Target::Road, 7));
    assert_eq!(parse_warp("r007"), goto(Target::Road, 7));
    assert_eq!(parse_warp("r+000"), goto(Target::Road, 0));
}

#[test]
fn the_number_has_to_fit() {
    let largest = format!("b{}", usize::MAX);
    assert_eq!(parse_warp(&largest), goto(Target::Building, usize::MAX));
    let too_large = format!("b{}0", usize::MAX);
    assert_eq!(parse_warp(&too_large), WarpCommand::Invalid);
    assert_eq!(parse_warp("b99999999999999999999999999"), WarpCommand::Invalid);
    assert_eq!(parse_warp("b18446744073709551616"), WarpCommand::Invalid);
}

#[test]
fn numbers_are_read_as_the_standard_library_reads_them() {
    for text in ["0", "+0", "12", "+12x", "", "+", "-3", "0012", "18446744073709551615"] {
        let line = format!("l{}", text);
        let expected = match usize::from_str_radix(text, 10) {
            Ok(index) => goto(Target::Lane, index),
            Err(_) => WarpCommand::Invalid,
        };
        assert_eq!(parse_warp(&line), expected);
    }
}

#[test]
fn bad_id_message_quotes_the_input() {
    assert_eq!(bad_id_message("q12"), "q12 isn't a valid ID");
    assert_eq!(bad_id_message(""), " isn't a valid ID");
}

#[test]
fn box_acts_on_its_two_buttons() {
    assert_eq!(debug_warp_event(None), BoxAction::Keep);
    assert_eq!(debug_warp_event(Some("close")), BoxAction::Close);
    assert_eq!(debug_warp_event(Some("Go!")), BoxAction::Go);
}

#[test]
fn flight_keeps_going_then_pops() {
    assert_eq!(warping_event(true, None), FlightStep::Keep);
    assert_eq!(warping_event(true, Some((Target::Lane, 4))), FlightStep::Keep);
    assert_eq!(warping_event(false, None), FlightStep::Pop);
    assert_eq!(
        warping_event(false, Some((Target::Lane, 4))),
        FlightStep::PopAndOpenPanel(Target::Lane, 4)
    );
}
