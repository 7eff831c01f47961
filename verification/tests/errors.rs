use etc_express_midi::ConsoleETCMidi;
use etc_express_midi::Error;
use etc_express_midi::FaderPair;
use etc_express_midi::send_outcome;
use etc_express_midi::SendError;

#[test]
fn send_error_becomes_midi_send_error() {
    let refused = SendError::InvalidData("message to be sent must not be empty");
    assert!(matches!(Error::from(refused), Error::MidiSendError(e) if e == refused));
    let failed = SendError::Other("could not send message");
    assert!(matches!(Error::from(failed), Error::MidiSendError(e) if e == failed));
}

#[test]
fn conversion_error_becomes_parse_int_error() {
    let err = u8::try_from(300u16).unwrap_err();
    assert!(matches!(Error::from(err), Error::ParseIntError(e) if e == err));
}

#[test]
fn invalid_cue_holds_the_number_and_the_reason() {
    let console = ConsoleETCMidi::new(0);
    match console.go_cue(FaderPair::AB, 0) {
        Err(Error::InvalidCue { number, reason }) => {
            assert_eq!(number, 0);
            assert_eq!(reason, "too small");
        }
        other => panic!("expected InvalidCue, got {:?}", other),
    }
    match console.go_cue(FaderPair::CD, 2000) {
        Err(Error::InvalidCue { number, reason }) => {
            assert_eq!(number, 2000);
            assert_eq!(reason, "too large");
        }
        other => panic!("expected InvalidCue, got {:?}", other),
    }
}

#[test]
fn send_outcome_passes_success_on() {
    assert!(matches!(send_outcome(Ok(())), Ok(())));
}

#[test]
fn send_outcome_wraps_the_refusal_unchanged() {
    let refused = SendError::InvalidData("non-sysex message must not be longer than 3 bytes");
    assert!(matches!(send_outcome(Err(refused)), Err(Error::MidiSendError(e)) if e == refused));
    let failed = SendError::Other("could not send message");
    assert!(matches!(send_outcome(Err(failed)), Err(Error::MidiSendError(e)) if e == failed));
    assert!(!matches!(
        send_outcome(Err(failed)),
        Err(Error::MidiSendError(SendError::InvalidData(_)))
    ));
}
