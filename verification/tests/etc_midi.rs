use etc_express_midi::ConsoleETCMidi;
use etc_express_midi::Error;
use etc_express_midi::FaderPair;
use etc_express_midi::MessageType;

fn expect_invalid_cue(result: Result<Vec<u8>, Error>, number: u16, reason: &str) {
    match result {
        Err(Error::InvalidCue { number: n, reason: r }) => {
            assert_eq!(n, number);
            assert_eq!(r, reason);
        }
        other => panic!("expected InvalidCue, got {:?}", other),
    }
}

#[test]
fn message_type_values() {
    assert_eq!(MessageType::ProgramChange.value(), 0xC0);
    assert_eq!(MessageType::ControllerChange.value(), 0xB0);
}

#[test]
fn fader_pair_values() {
    assert_eq!(FaderPair::AB.value(), 0x31);
    assert_eq!(FaderPair::CD.value(), 0x32);
    assert_eq!(FaderPair::AB.value(), 49);
    assert_eq!(FaderPair::CD.value(), 50);
}

#[test]
fn go_cd_on_channel_1() {
    let console = ConsoleETCMidi::new(1);
    assert_eq!(console.go(FaderPair::CD), vec![0xB1, 0x4D, 0x00]);
}

#[test]
fn go_ab_is_program_change_zero() {
    assert_eq!(ConsoleETCMidi::new(0).go(FaderPair::AB), vec![0xC0, 0x00]);
    assert_eq!(ConsoleETCMidi::new(1).go(FaderPair::AB), vec![0xC1, 0x00]);
    assert_eq!(ConsoleETCMidi::new(15).go(FaderPair::AB), vec![0xCF, 0x00]);
}

#[test]
fn go_on_every_channel() {
    for channel in 0..=15u8 {
        let console = ConsoleETCMidi::new(channel);
        assert_eq!(console.go(FaderPair::AB), vec![0xC0 + channel, 0]);
        assert_eq!(console.go(FaderPair::CD), vec![0xB0 + channel, 77, 0]);
    }
}

#[test]
fn go_cue_ab_200_on_channel_0() {
    let console = ConsoleETCMidi::new(0);
    assert_eq!(console.go_cue(FaderPair::AB, 200).unwrap(), vec![0xB0, 78, 72]);
}

#[test]
fn go_cue_ab_low_cues_are_program_changes() {
    for channel in 0..=15u8 {
        let console = ConsoleETCMidi::new(channel);
        for cue in 1..=127u16 {
            let bytes = console.go_cue(FaderPair::AB, cue).unwrap();
            assert_eq!(bytes.len(), 2);
            assert_eq!(bytes[0] & 0xF0, 0xC0);
            assert_eq!(bytes[0] & 0x0F, channel);
            assert_eq!(u16::from(bytes[1]), cue);
        }
    }
}

#[test]
fn go_cue_cd_low_cues_use_the_first_bank() {
    for channel in 0..=15u8 {
        let console = ConsoleETCMidi::new(channel);
        for cue in 1..=127u16 {
            let bytes = console.go_cue(FaderPair::CD, cue).unwrap();
            assert_eq!(bytes, vec![0xB0 + channel, 77, cue as u8]);
        }
    }
}

#[test]
fn go_cue_first_and_last_valid_cue() {
    let console = ConsoleETCMidi::new(3);
    assert_eq!(console.go_cue(FaderPair::AB, 1).unwrap(), vec![0xC3, 1]);
    assert_eq!(console.go_cue(FaderPair::CD, 1).unwrap(), vec![0xB3, 77, 1]);
    assert_eq!(console.go_cue(FaderPair::AB, 127).unwrap(), vec![0xC3, 127]);
    assert_eq!(console.go_cue(FaderPair::CD, 127).unwrap(), vec![0xB3, 77, 127]);
    assert_eq!(console.go_cue(FaderPair::AB, 999).unwrap(), vec![0xB3, 84, 103]);
    assert_eq!(console.go_cue(FaderPair::CD, 999).unwrap(), vec![0xB3, 84, 103]);
}

#[test]
fn go_cue_bank_bounds() {
    let console = ConsoleETCMidi::new(0);
    let bounds: [(u16, u8, u8); 14] = [
        (128, 78, 0),
        (255, 78, 127),
        (256, 79, 0),
        (383, 79, 127),
        (384, 80, 0),
        (511, 80, 127),
        (512, 81, 0),
        (639, 81, 127),
        (640, 82, 0),
        (767, 82, 127),
        (768, 83, 0),
        (895, 83, 127),
        (896, 84, 0),
        (999, 84, 103),
    ];
    for (cue, controller, offset) in bounds {
        for pair in [FaderPair::AB, FaderPair::CD] {
            assert_eq!(console.go_cue(pair, cue).unwrap(), vec![0xB0, controller, offset]);
        }
    }
}

#[test]
fn go_cue_banked_cues_on_every_channel() {
    for channel in 0..=15u8 {
        let console = ConsoleETCMidi::new(channel);
        for cue in 128..=999u16 {
            for pair in [FaderPair::AB, FaderPair::CD] {
                let bytes = console.go_cue(pair, cue).unwrap();
                assert_eq!(bytes.len(), 3);
                assert_eq!(bytes[0], 0xB0 + channel);
                assert!((78..=84).contains(&bytes[1]));
                assert_eq!(u16::from(bytes[1]), 77 + cue / 128);
                assert_eq!(u16::from(bytes[2]), cue - 128 * (cue / 128));
                assert!(bytes[2] <= 127);
            }
        }
    }
}

#[test]
fn go_cue_bank_by_the_cue_before() {
    let console = ConsoleETCMidi::new(9);
    for cue in 128..=999u16 {
        if cue % 128 == 0 {
            continue;
        }
        let bucket = (cue - 1) / 128;
        for pair in [FaderPair::AB, FaderPair::CD] {
            let bytes = console.go_cue(pair, cue).unwrap();
            assert_eq!(u16::from(bytes[1]), 77 + bucket);
            assert_eq!(u16::from(bytes[2]), cue - bucket * 128);
            assert!((1..=127).contains(&bytes[2]));
        }
    }
}

#[test]
fn go_cue_zero_is_too_small() {
    for channel in 0..=15u8 {
        let console = ConsoleETCMidi::new(channel);
        expect_invalid_cue(console.go_cue(FaderPair::AB, 0), 0, "too small");
        expect_invalid_cue(console.go_cue(FaderPair::CD, 0), 0, "too small");
    }
}

#[test]
fn go_cue_1000_is_too_large() {
    for channel in 0..=15u8 {
        let console = ConsoleETCMidi::new(channel);
        expect_invalid_cue(console.go_cue(FaderPair::AB, 1000), 1000, "too large");
        expect_invalid_cue(console.go_cue(FaderPair::CD, 1000), 1000, "too large");
    }
}

#[test]
fn go_cue_above_999_is_too_large() {
    let console = ConsoleETCMidi::new(0);
    for cue in [1001u16, 1023, 1024, 4096, 65535] {
        expect_invalid_cue(console.go_cue(FaderPair::AB, cue), cue, "too large");
        expect_invalid_cue(console.go_cue(FaderPair::CD, cue), cue, "too large");
    }
}

#[test]
fn go_cue_never_fails_on_a_valid_cue() {
    for channel in 0..=15u8 {
        let console = ConsoleETCMidi::new(channel);
        for cue in 1..=999u16 {
            assert!(console.go_cue(FaderPair::AB, cue).is_ok());
            assert!(console.go_cue(FaderPair::CD, cue).is_ok());
        }
    }
}
