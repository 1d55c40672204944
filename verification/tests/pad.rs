use n64io::controller::ControllerError;
use n64io::pad::{
    centred_byte, dpad_direction_of, signed_byte, ControllerData, ControllerSnapshot,
    ControllerState, GamecubeControllerData, GamecubeOriginData, Pad, PadState, ScanData,
    BUTTON_A, BUTTON_B, BUTTON_C_DOWN, BUTTON_C_LEFT, BUTTON_C_RIGHT, BUTTON_C_UP, BUTTON_DOWN,
    BUTTON_L, BUTTON_LEFT, BUTTON_R, BUTTON_RIGHT, BUTTON_START, BUTTON_UP, BUTTON_X, BUTTON_Y,
    BUTTON_Z, DPAD_NEUTRAL, PORTS,
};

fn native(err: u64, buttons: u16, x: u8, y: u8) -> ControllerData {
    ControllerData { raw: (err << 46) | ((buttons as u64) << 16) | ((x as u64) << 8) | (y as u64) }
}

fn secondary(err: u64, buttons: u64, bytes: [u8; 6]) -> GamecubeControllerData {
    let mut raw: u64 = (err << 62) | (buttons << 48);
    for (i, b) in bytes.iter().enumerate() {
        raw |= (*b as u64) << (40 - 8 * i);
    }
    GamecubeControllerData { raw }
}

fn blank_origin() -> GamecubeOriginData {
    GamecubeOriginData { data: GamecubeControllerData { raw: 0 }, deadzone0: 0, deadzone1: 0 }
}

#[test]
fn ports_are_four() {
    assert_eq!(PORTS, 4);
}

#[test]
fn signed_byte_is_twos_complement() {
    assert_eq!(signed_byte(0), 0);
    assert_eq!(signed_byte(1), 1);
    assert_eq!(signed_byte(127), 127);
    assert_eq!(signed_byte(128), -128);
    assert_eq!(signed_byte(129), -127);
    assert_eq!(signed_byte(255), -1);
}

#[test]
fn centred_byte_is_offset_from_128() {
    assert_eq!(centred_byte(0), -128);
    assert_eq!(centred_byte(1), -127);
    assert_eq!(centred_byte(127), -1);
    assert_eq!(centred_byte(128), 0);
    assert_eq!(centred_byte(129), 1);
    assert_eq!(centred_byte(255), 127);
}

#[test]
fn both_stick_encodings_reach_the_same_range() {
    let mut native_values: Vec<i8> = (0..=255u8).map(signed_byte).collect();
    let mut secondary_values: Vec<i8> = (0..=255u8).map(centred_byte).collect();
    native_values.sort();
    secondary_values.sort();
    assert_eq!(native_values, secondary_values);
    assert_eq!(native_values[0], -128);
    assert_eq!(native_values[255], 127);
}

#[test]
fn dpad_directions() {
    assert_eq!(dpad_direction_of(0), DPAD_NEUTRAL);
    assert_eq!(DPAD_NEUTRAL, -1);
    assert_eq!(dpad_direction_of(BUTTON_RIGHT), 0);
    assert_eq!(dpad_direction_of(BUTTON_UP | BUTTON_RIGHT), 1);
    assert_eq!(dpad_direction_of(BUTTON_UP), 2);
    assert_eq!(dpad_direction_of(BUTTON_UP | BUTTON_LEFT), 3);
    assert_eq!(dpad_direction_of(BUTTON_LEFT), 4);
    assert_eq!(dpad_direction_of(BUTTON_DOWN | BUTTON_LEFT), 5);
    assert_eq!(dpad_direction_of(BUTTON_DOWN), 6);
    assert_eq!(dpad_direction_of(BUTTON_DOWN | BUTTON_RIGHT), 7);
}

#[test]
fn dpad_direction_ignores_other_buttons() {
    assert_eq!(dpad_direction_of(BUTTON_A | BUTTON_B | BUTTON_Z | BUTTON_START), DPAD_NEUTRAL);
    assert_eq!(dpad_direction_of(BUTTON_A | BUTTON_UP), 2);
    assert_eq!(dpad_direction_of(0xF0FF), DPAD_NEUTRAL);
}

#[test]
fn dpad_direction_precedence_on_opposite_axes() {
    assert_eq!(dpad_direction_of(BUTTON_UP | BUTTON_DOWN), 2);
    assert_eq!(dpad_direction_of(BUTTON_LEFT | BUTTON_RIGHT), 0);
    assert_eq!(dpad_direction_of(BUTTON_UP | BUTTON_LEFT | BUTTON_RIGHT), 3);
    assert_eq!(dpad_direction_of(BUTTON_DOWN | BUTTON_LEFT | BUTTON_RIGHT), 5);
    assert_eq!(
        dpad_direction_of(BUTTON_UP | BUTTON_DOWN | BUTTON_LEFT | BUTTON_RIGHT),
        3
    );
}

#[test]
fn dpad_direction_is_always_neutral_or_one_of_eight() {
    for buttons in 0..=u16::MAX {
        let d = dpad_direction_of(buttons);
        assert!(d == DPAD_NEUTRAL || (0..8).contains(&d));
    }
}

#[test]
fn native_word_fields() {
    let word = ControllerData { raw: 0x0000_4000_8421_7F80 };
    assert_eq!(word.err(), 1);
    assert_eq!(word.buttons(), 0x8421);
    assert_eq!(word.x(), 127);
    assert_eq!(word.y(), -128);
}

#[test]
fn native_word_drops_the_two_unused_button_bits() {
    let word = native(0, 0xFFFF, 0, 0);
    assert_eq!(word.buttons(), 0xFF3F);
    assert_eq!(word.buttons() & BUTTON_X, 0);
    assert_eq!(word.buttons() & BUTTON_Y, 0);
}

#[test]
fn native_word_buttons_by_name() {
    let names = [
        (15, BUTTON_A),
        (14, BUTTON_B),
        (13, BUTTON_Z),
        (12, BUTTON_START),
        (11, BUTTON_UP),
        (10, BUTTON_DOWN),
        (9, BUTTON_LEFT),
        (8, BUTTON_RIGHT),
        (5, BUTTON_L),
        (4, BUTTON_R),
        (3, BUTTON_C_UP),
        (2, BUTTON_C_DOWN),
        (1, BUTTON_C_LEFT),
        (0, BUTTON_C_RIGHT),
    ];
    for (bit, button) in names {
        let word = ControllerData { raw: 1u64 << (16 + bit) };
        assert_eq!(word.buttons(), button);
    }
}

#[test]
fn native_word_ignores_bits_outside_its_fields() {
    let word = ControllerData { raw: 0xFFFF_3FFF_0000_0000 };
    assert_eq!(word.err(), 0);
    assert_eq!(word.buttons(), 0);
    assert_eq!(word.x(), 0);
    assert_eq!(word.y(), 0);
    assert_eq!(ControllerData { raw: u64::MAX }.err(), 3);
}

#[test]
fn secondary_word_fields() {
    let word = secondary(2, 0, [0, 255, 128, 129, 7, 200]);
    assert_eq!(word.err(), 2);
    assert_eq!(word.buttons(), 0);
    assert_eq!(word.stick_x(), -128);
    assert_eq!(word.stick_y(), 127);
    assert_eq!(word.cstick_x(), 0);
    assert_eq!(word.cstick_y(), 1);
    assert_eq!(word.analog_l(), 7);
    assert_eq!(word.analog_r(), 200);
    assert!(!word.origin_unchecked());
}

#[test]
fn secondary_word_buttons_by_name() {
    let names = [
        (12, BUTTON_START),
        (11, BUTTON_Y),
        (10, BUTTON_X),
        (9, BUTTON_B),
        (8, BUTTON_A),
        (6, BUTTON_L),
        (5, BUTTON_R),
        (4, BUTTON_Z),
        (3, BUTTON_UP),
        (2, BUTTON_DOWN),
        (1, BUTTON_RIGHT),
        (0, BUTTON_LEFT),
    ];
    let mut all: u16 = 0;
    for (bit, button) in names {
        let word = GamecubeControllerData { raw: 1u64 << (48 + bit) };
        assert_eq!(word.buttons(), button);
        all |= button;
    }
    assert_eq!(GamecubeControllerData { raw: 0x1FFF_0000_0000_0000 }.buttons(), all);
    assert_eq!(all, 0xFFF0);
}

#[test]
fn secondary_word_status_and_unused_bits_are_no_buttons() {
    assert_eq!(GamecubeControllerData { raw: 0xE080_0000_0000_0000 }.buttons(), 0);
    assert_eq!(GamecubeControllerData { raw: 0xE080_0000_0000_0000 }.err(), 3);
    assert!(GamecubeControllerData { raw: 0x2000_0000_0000_0000 }.origin_unchecked());
    assert!(!GamecubeControllerData { raw: 0xDFFF_FFFF_FFFF_FFFF }.origin_unchecked());
}

#[test]
fn decode_takes_the_native_answer_first() {
    let c = native(0, BUTTON_A | BUTTON_UP, 5, 0xFB);
    let gc = secondary(0, 0x0100, [128; 6]);
    let state = PadState::decode(c, gc, blank_origin());
    assert_eq!(
        state,
        PadState { pad: Pad::NativePad, buttons: BUTTON_A | BUTTON_UP, stick_x: 5, stick_y: -5 }
    );
    assert_eq!(PadState::error(c, gc), ControllerError::NoError);
}

#[test]
fn decode_takes_the_secondary_answer_when_the_native_failed() {
    let c = native(2, BUTTON_B, 1, 1);
    let gc = secondary(0, 0x0100 | 0x0800, [138, 118, 0, 255, 9, 10]);
    let origin = GamecubeOriginData {
        data: secondary(0, 0, [128, 128, 128, 128, 0, 0]),
        deadzone0: 2,
        deadzone1: 3,
    };
    let state = PadState::decode(c, gc, origin);
    assert_eq!(
        state,
        PadState {
            pad: Pad::SecondaryPad {
                cstick_x: -128,
                cstick_y: 127,
                analog_l: 9,
                analog_r: 10,
                origin,
            },
            buttons: BUTTON_A | BUTTON_Y,
            stick_x: 10,
            stick_y: -10,
        }
    );
    assert_eq!(PadState::error(c, gc), ControllerError::NoError);
}

#[test]
fn decode_of_a_port_where_both_answers_failed() {
    let c = native(1, 0xFFFF, 9, 9);
    let gc = secondary(2, 0x1FFF, [1; 6]);
    assert_eq!(PadState::decode(c, gc, blank_origin()), PadState::absent());
    assert_eq!(
        PadState::absent(),
        PadState { pad: Pad::NotPresent, buttons: 0, stick_x: 0, stick_y: 0 }
    );
    assert_eq!(PadState::error(c, gc), ControllerError::BadCommand);
    assert_eq!(PadState::error(native(2, 0, 0, 0), gc), ControllerError::NotPresent);
}

#[test]
fn status_three_counts_as_no_error() {
    let c = native(3, BUTTON_Z, 0, 0);
    let gc = secondary(2, 0, [0; 6]);
    assert_eq!(PadState::decode(c, gc, blank_origin()).pad, Pad::NativePad);
    assert_eq!(PadState::error(c, gc), ControllerError::NoError);
}

#[test]
fn pad_accessors_require_their_variant() {
    let origin = GamecubeOriginData { data: GamecubeControllerData { raw: 77 }, deadzone0: 1, deadzone1: 2 };
    let pad = Pad::SecondaryPad { cstick_x: -3, cstick_y: 4, analog_l: 5, analog_r: 6, origin };
    assert_eq!(pad.origin(), Some(origin));
    assert_eq!(pad.triggers(), Some((5, 6)));
    assert_eq!(pad.cstick(), Some((-3, 4)));
    for other in [Pad::NativePad, Pad::NotPresent] {
        assert_eq!(other.origin(), None);
        assert_eq!(other.triggers(), None);
        assert_eq!(other.cstick(), None);
    }
}

#[test]
fn blank_snapshot() {
    let s = ControllerSnapshot::blank();
    assert_eq!(
        s,
        ControllerSnapshot {
            pad: Pad::NotPresent,
            error: ControllerError::NotPresent,
            buttons_down: 0,
            buttons_up: 0,
            held: 0,
            pressed_edge: 0,
            stick_x: 0,
            stick_y: 0,
        }
    );
    assert_eq!(s.dpad_direction(), DPAD_NEUTRAL);
    assert_eq!(GamecubeOriginData::blank(), blank_origin());
}

#[test]
fn next_snapshot_edges() {
    let first = ControllerSnapshot::blank().next(
        PadState { pad: Pad::NativePad, buttons: 0b1100, stick_x: 1, stick_y: 2 },
        ControllerError::NoError,
    );
    assert_eq!(first.held, 0b1100);
    assert_eq!(first.buttons_down, 0b1100);
    assert_eq!(first.buttons_up, 0);
    assert_eq!(first.pressed_edge, 0);
    let second = first.next(
        PadState { pad: Pad::NativePad, buttons: 0b0110, stick_x: 3, stick_y: 4 },
        ControllerError::NoError,
    );
    assert_eq!(second.held, 0b0110);
    assert_eq!(second.buttons_down, 0b0010);
    assert_eq!(second.buttons_up, 0b1000);
    assert_eq!(second.pressed_edge, 0b0100);
    assert_eq!(second.stick_x, 3);
    assert_eq!(second.stick_y, 4);
    let third = second.next(
        PadState { pad: Pad::NativePad, buttons: 0b0110, stick_x: 3, stick_y: 4 },
        ControllerError::NoError,
    );
    assert_eq!(third.buttons_down, 0);
    assert_eq!(third.buttons_up, 0);
    assert_eq!(third.pressed_edge, 0b0010);
    let fourth = third.next(third.with(0b0110), ControllerError::NoError);
    assert_eq!(fourth.pressed_edge, 0);
    assert_eq!(fourth.held, 0b0110);
}

#[test]
fn next_snapshot_keeps_nothing_but_the_edges() {
    let origin = GamecubeOriginData { data: GamecubeControllerData { raw: 5 }, deadzone0: 1, deadzone1: 1 };
    let before = ControllerSnapshot {
        pad: Pad::SecondaryPad { cstick_x: 1, cstick_y: 2, analog_l: 3, analog_r: 4, origin },
        error: ControllerError::NoError,
        buttons_down: BUTTON_A,
        buttons_up: BUTTON_B,
        held: BUTTON_A | BUTTON_Z,
        pressed_edge: BUTTON_Z,
        stick_x: 100,
        stick_y: -100,
    };
    let after = before.next(PadState::absent(), ControllerError::NotPresent);
    assert_eq!(
        after,
        ControllerSnapshot {
            pad: Pad::NotPresent,
            error: ControllerError::NotPresent,
            buttons_down: 0,
            buttons_up: BUTTON_A | BUTTON_Z,
            held: 0,
            pressed_edge: 0,
            stick_x: 0,
            stick_y: 0,
        }
    );
}

#[test]
fn button_sets_keep_apart_over_all_transitions_of_one_button() {
    for history in 0..16u16 {
        let mut snapshot = ControllerSnapshot::blank();
        let mut before_held = false;
        let mut before_down = false;
        for step in 0..4 {
            let held = (history >> step) & 1 == 1;
            let buttons = if held { BUTTON_A } else { 0 };
            snapshot = snapshot.next(
                PadState { pad: Pad::NativePad, buttons, stick_x: 0, stick_y: 0 },
                ControllerError::NoError,
            );
            assert_eq!(snapshot.held == BUTTON_A, held);
            assert_eq!(snapshot.buttons_down == BUTTON_A, held && !before_held);
            assert_eq!(snapshot.buttons_up == BUTTON_A, !held && before_held);
            assert_eq!(snapshot.pressed_edge == BUTTON_A, held && before_down);
            assert_eq!(snapshot.buttons_down & snapshot.buttons_up, 0);
            assert_eq!(snapshot.buttons_down & snapshot.pressed_edge, 0);
            before_down = held && !before_held;
            before_held = held;
        }
    }
}

#[test]
fn snapshot_seen_through_a_button_set() {
    let snapshot = ControllerSnapshot {
        pad: Pad::NativePad,
        error: ControllerError::NoError,
        buttons_down: 1,
        buttons_up: 2,
        held: 4,
        pressed_edge: 8,
        stick_x: -7,
        stick_y: 7,
    };
    assert_eq!(
        snapshot.with(snapshot.buttons_up),
        PadState { pad: Pad::NativePad, buttons: 2, stick_x: -7, stick_y: 7 }
    );
}

#[test]
fn snapshot_dpad_direction_reads_the_held_set() {
    let mut snapshot = ControllerSnapshot::blank();
    snapshot.buttons_down = BUTTON_UP;
    snapshot.buttons_up = BUTTON_LEFT;
    snapshot.pressed_edge = BUTTON_RIGHT;
    assert_eq!(snapshot.dpad_direction(), DPAD_NEUTRAL);
    snapshot.held = BUTTON_DOWN | BUTTON_RIGHT;
    assert_eq!(snapshot.dpad_direction(), 7);
}

#[test]
fn controller_state_from_scan() {
    let absent_c = native(2, 0, 0, 0);
    let absent_gc = secondary(2, 0, [0; 6]);
    let reply = ScanData {
        c: [native(0, BUTTON_START, 0x10, 0xF0), absent_c, absent_c, native(1, 0, 0, 0)],
        gc: [absent_gc, secondary(0, 0x0010, [128, 128, 130, 126, 0, 255]), absent_gc, absent_gc],
    };
    let state = ControllerState::from(reply);
    assert_eq!(
        state.ports[0],
        PadState { pad: Pad::NativePad, buttons: BUTTON_START, stick_x: 16, stick_y: -16 }
    );
    assert_eq!(
        state.ports[1],
        PadState {
            pad: Pad::SecondaryPad {
                cstick_x: 2,
                cstick_y: -2,
                analog_l: 0,
                analog_r: 255,
                origin: blank_origin(),
            },
            buttons: BUTTON_Z,
            stick_x: 0,
            stick_y: 0,
        }
    );
    assert_eq!(state.ports[2], PadState::absent());
    assert_eq!(state.ports[3], PadState::absent());
    let same: ControllerState = reply.into();
    assert_eq!(same, state);
}
