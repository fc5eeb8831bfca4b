use mocap_suit::session::{on_request, SessionAction};

#[test]
fn identify_request_is_answered_with_three_zero_bytes() {
    match on_request(b"MSID", true) {
        SessionAction::Reply(bytes) => assert_eq!(bytes, vec![0u8, 0, 0]),
        _ => panic!("an identify request must get a reply"),
    }
}

#[test]
fn ready_request_after_successful_bring_up_is_answered_with_one() {
    match on_request(b"REDY", true) {
        SessionAction::Reply(bytes) => assert_eq!(bytes, vec![1u8]),
        _ => panic!("a ready check must get a reply"),
    }
}

#[test]
fn ready_request_before_bring_up_is_answered_with_zero() {
    match on_request(b"REDY", false) {
        SessionAction::Reply(bytes) => assert_eq!(bytes, vec![0u8]),
        _ => panic!("a ready check must get a reply"),
    }
}

#[test]
fn unrecognized_request_gets_no_reply_and_the_session_continues() {
    match on_request(b"XXXX", true) {
        SessionAction::Ignore => {},
        SessionAction::Reply(_) => panic!("no bytes may be written for an unrecognized tag"),
        SessionAction::ReadSensors => panic!("no poll may run for an unrecognized tag"),
    }
    // The next request on the same session proceeds normally.
    match on_request(b"MSID", true) {
        SessionAction::Reply(bytes) => assert_eq!(bytes, vec![0u8, 0, 0]),
        _ => panic!("the session must still answer after an unrecognized tag"),
    }
}

#[test]
fn data_request_polls_the_sensors() {
    match on_request(b"DATA", true) {
        SessionAction::ReadSensors => {},
        _ => panic!("a data request must trigger a poll"),
    }
}
