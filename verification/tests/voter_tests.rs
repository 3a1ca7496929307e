//! Behaviour of the majority voter block.

use iec_61499_fb_rs::FbError;
use iec_61499_fb_rs::cli::args::Sequence;
use iec_61499_fb_rs::fb::Fb;
use iec_61499_fb_rs::fb::data::DataBuffer;
use iec_61499_fb_rs::fb::run_until_stable;
use iec_61499_fb_rs::fb_impl::voter::{Voter, VoterState, run_sequence};

fn vote_once(a: bool, b: bool, c: bool) -> Voter {
    let mut v = Voter::new("v");
    v.write_data_in("a", &DataBuffer::Bool(a)).unwrap();
    v.write_data_in("b", &DataBuffer::Bool(b)).unwrap();
    v.write_data_in("c", &DataBuffer::Bool(c)).unwrap();
    v.set_event_in("vote").unwrap();
    run_until_stable(&mut v);
    v
}

#[test]
fn majority_two_of_three_is_true() {
    let v = vote_once(true, true, false);
    assert!(v.state.read());
    assert!(matches!(v.ecc, VoterState::VotedPos));
    assert_eq!(v.active_event_out(), Some("voted".to_string()));
}

#[test]
fn majority_one_of_three_is_false() {
    let v = vote_once(true, false, false);
    assert!(!v.state.read());
    assert!(matches!(v.ecc, VoterState::Ready));
}

#[test]
fn majority_all_false_is_false() {
    let v = vote_once(false, false, false);
    assert!(!v.state.read());
}

#[test]
fn majority_all_true_is_true() {
    let v = vote_once(true, true, true);
    assert!(v.state.read());
}

#[test]
fn reset_after_positive_vote_clears_state() {
    let mut v = vote_once(true, true, false);
    assert!(v.state.read());
    v.set_event_in("reset").unwrap();
    run_until_stable(&mut v);
    assert!(!v.state.read());
    assert!(matches!(v.ecc, VoterState::Ready));
}

#[test]
fn run_sequence_positive_vote() {
    let v = run_sequence(Sequence::PositiveVote);
    assert!(v.state.read());
    assert!(matches!(v.ecc, VoterState::VotedPos));
}

#[test]
fn run_sequence_negative_vote() {
    let v = run_sequence(Sequence::NegativeVote);
    assert!(!v.state.read());
    assert!(matches!(v.ecc, VoterState::Ready));
}

#[test]
fn run_sequence_voted_reset() {
    let v = run_sequence(Sequence::VotedReset);
    assert!(!v.state.read());
    assert!(matches!(v.ecc, VoterState::Ready));
    assert!(v.ready.read());
}

#[test]
fn run_sequence_unvoted_reset() {
    let v = run_sequence(Sequence::UnvotedReset);
    assert!(!v.state.read());
    assert!(matches!(v.ecc, VoterState::Ready));
    // the reset signal finds no positive vote to clear and stays pending
    assert_eq!(v.active_event_in(), Some("reset".to_string()));
}

#[test]
fn receive_signal_rejects_second_signal() {
    let mut v = Voter::new("v");
    v.receive_signal("vote").unwrap();
    assert_eq!(v.receive_signal("reset"), Err(FbError::InputEventOccupied));
    assert_eq!(v.active_event_in(), Some("vote".to_string()));
}

#[test]
fn receive_signal_rejects_unknown_signal() {
    let mut v = Voter::new("v");
    assert_eq!(v.receive_signal("pulse"), Err(FbError::UnknownEvent));
}

#[test]
fn toggle_input_data_flips_and_rejects_unknown() {
    let mut v = Voter::new("v");
    v.toggle_input_data("a").unwrap();
    assert!(v.a.read());
    v.toggle_input_data("a").unwrap();
    assert!(!v.a.read());
    assert_eq!(v.toggle_input_data("q"), Err(FbError::UnknownDataField));
}

#[test]
fn capability_calls_reject_unknown_names() {
    let mut v = Voter::new("v");
    assert_eq!(v.set_event_in("tick"), Err(FbError::UnknownEvent));
    assert!(matches!(v.read_data_out("pv"), Err(FbError::UnknownDataField)));
    assert_eq!(
        v.write_data_in("a", &DataBuffer::UInt(1)),
        Err(FbError::DataKindMismatch)
    );
    assert!(matches!(v.with_for_event("boom"), Err(FbError::UnknownEvent)));
    assert!(matches!(v.data_kind("boom"), Err(FbError::UnknownDataField)));
}

#[test]
fn with_associations_are_static() {
    let v = Voter::new("v");
    assert_eq!(v.with_for_event("vote").unwrap(), vec!["a", "b", "c"]);
    assert_eq!(v.with_for_event("voted").unwrap(), vec!["state"]);
}

#[test]
fn state_labels() {
    assert_eq!(VoterState::Ready.as_str(), "Ready");
    assert_eq!(VoterState::Vote.as_str(), "Vote");
    assert_eq!(VoterState::VotedPos.as_str(), "VotedPos");
    assert_eq!(VoterState::Reset.as_str(), "Reset");
}

#[test]
fn information_snapshot_is_read_only_labels() {
    let mut v = Voter::new("v");
    let info = v.information();
    assert_eq!(info.ecc, "Ready");
    assert_eq!(info.vote, "INACTIVE");
    assert_eq!(info.state, "FALSE");
    v.toggle_input_data("b").unwrap();
    v.receive_signal("vote").unwrap();
    let info = v.information();
    assert_eq!(info.vote, "RECEIVED");
    assert_eq!(info.b, "TRUE");
}

#[test]
fn stepping_until_unchanged_is_bounded() {
    let mut v = Voter::new("v");
    v.toggle_input_data("a").unwrap();
    v.toggle_input_data("b").unwrap();
    v.set_event_in("vote").unwrap();
    let steps = run_until_stable(&mut v);
    assert!(steps <= 5);
    // a further invocation reports "unchanged" and changes nothing
    assert!(!v.invoke_execution_control());
    assert!(v.state.read());
}
