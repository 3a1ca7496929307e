//! Behaviour of the set/reset latch and the boolean switch blocks.

use iec_61499_fb_rs::FbError;
use iec_61499_fb_rs::fb::Fb;
use iec_61499_fb_rs::fb::data::DataBuffer;
use iec_61499_fb_rs::fb::run_until_stable;
use iec_61499_fb_rs::fb_impl::sr::E_SR;
use iec_61499_fb_rs::fb_impl::switch::E_SWITCH;

fn q_of(sr: &E_SR) -> bool {
    match sr.read_data_out("q").unwrap() {
        DataBuffer::Bool(b) => b,
        other => panic!("q has the wrong kind: {:?}", other),
    }
}

#[test]
fn latch_set_reset_set_alternates() {
    let mut sr = E_SR::new("sr0");
    assert!(!q_of(&sr));
    sr.set_event_in("s").unwrap();
    run_until_stable(&mut sr);
    assert!(q_of(&sr));
    sr.set_event_in("r").unwrap();
    run_until_stable(&mut sr);
    assert!(!q_of(&sr));
    sr.set_event_in("s").unwrap();
    run_until_stable(&mut sr);
    assert!(q_of(&sr));
}

#[test]
fn latch_leaves_a_reset_pending_in_the_initial_state() {
    let mut sr = E_SR::new("sr0");
    sr.set_event_in("r").unwrap();
    run_until_stable(&mut sr);
    assert!(!q_of(&sr));
    // the initial state only reacts to a set event; the reset stays pending
    assert_eq!(sr.active_event_in(), Some("r".to_string()));
    sr.set_event_in("s").unwrap();
    run_until_stable(&mut sr);
    // the set flips the latch, after which the pending reset fires too
    assert!(!q_of(&sr));
}

#[test]
fn latch_fires_eo_with_q() {
    let mut sr = E_SR::new("sr0");
    sr.set_event_in("s").unwrap();
    run_until_stable(&mut sr);
    assert_eq!(sr.active_event_out(), Some("eo".to_string()));
    assert_eq!(sr.with_for_event("eo").unwrap(), vec!["q"]);
    sr.clear_event_out();
    assert_eq!(sr.active_event_out(), None);
}

#[test]
fn latch_has_no_data_inputs() {
    let mut sr = E_SR::new("sr0");
    assert_eq!(
        sr.write_data_in("q", &DataBuffer::Bool(true)),
        Err(FbError::UnknownDataField)
    );
}

#[test]
fn switch_routes_false_gate_to_output_zero() {
    let mut sw = E_SWITCH::new("switch0");
    sw.write_data_in("g", &DataBuffer::Bool(false)).unwrap();
    sw.set_event_in("ei").unwrap();
    run_until_stable(&mut sw);
    assert_eq!(sw.active_event_out(), Some("eo0".to_string()));
    assert!(sw.eo0.read());
    assert!(!sw.eo1.read());
}

#[test]
fn switch_routes_true_gate_to_output_one() {
    let mut sw = E_SWITCH::new("switch0");
    sw.write_data_in("g", &DataBuffer::Bool(true)).unwrap();
    sw.set_event_in("ei").unwrap();
    run_until_stable(&mut sw);
    assert_eq!(sw.active_event_out(), Some("eo1".to_string()));
    assert!(sw.eo1.read());
    assert!(!sw.eo0.read());
}

#[test]
fn switch_never_holds_both_outputs() {
    let mut sw = E_SWITCH::new("switch0");
    sw.write_data_in("g", &DataBuffer::Bool(false)).unwrap();
    sw.set_event_in("ei").unwrap();
    run_until_stable(&mut sw);
    assert!(sw.eo0.read() && !sw.eo1.read());
    // without clearing, flip `g` and route again: firing eo1 clears eo0
    sw.write_data_in("g", &DataBuffer::Bool(true)).unwrap();
    sw.set_event_in("ei").unwrap();
    run_until_stable(&mut sw);
    assert!(sw.eo1.read() && !sw.eo0.read());
}

#[test]
fn switch_interface_errors() {
    let mut sw = E_SWITCH::new("switch0");
    assert_eq!(sw.set_event_in("eo0"), Err(FbError::UnknownEvent));
    assert!(matches!(sw.read_data_out("g"), Err(FbError::UnknownDataField)));
    assert_eq!(
        sw.write_data_in("g", &DataBuffer::UInt(1)),
        Err(FbError::DataKindMismatch)
    );
    assert_eq!(sw.with_for_event("ei").unwrap(), vec!["g"]);
}
