//! Behaviour of the up-counter block.

use iec_61499_fb_rs::FbError;
use iec_61499_fb_rs::fb::Fb;
use iec_61499_fb_rs::fb::data::{DataBuffer, DataKind};
use iec_61499_fb_rs::fb::run_until_stable;
use iec_61499_fb_rs::fb_impl::ctu::E_CTU;

fn q_of(ctu: &E_CTU) -> bool {
    match ctu.read_data_out("q").unwrap() {
        DataBuffer::Bool(b) => b,
        other => panic!("q has the wrong kind: {:?}", other),
    }
}

fn cv_of(ctu: &E_CTU) -> u16 {
    match ctu.read_data_out("cv").unwrap() {
        DataBuffer::UInt(v) => v,
        other => panic!("cv has the wrong kind: {:?}", other),
    }
}

fn count_up(ctu: &mut E_CTU) {
    ctu.set_event_in("cu").unwrap();
    run_until_stable(ctu);
}

#[test]
fn counter_reaches_preset_on_third_count() {
    let mut ctu = E_CTU::new("ctu0");
    ctu.write_data_in("pv", &DataBuffer::UInt(3)).unwrap();
    for i in 1u16..=3 {
        count_up(&mut ctu);
        assert_eq!(cv_of(&ctu), i);
        assert_eq!(q_of(&ctu), i >= 3);
    }
    // q stays true on a further count
    count_up(&mut ctu);
    assert_eq!(cv_of(&ctu), 4);
    assert!(q_of(&ctu));
}

#[test]
fn counter_saturates_at_the_largest_value() {
    let mut ctu = E_CTU::new("ctu0");
    ctu.write_data_in("pv", &DataBuffer::UInt(1)).unwrap();
    for _ in 0..u16::MAX {
        count_up(&mut ctu);
    }
    assert_eq!(cv_of(&ctu), u16::MAX);
    assert!(q_of(&ctu));
    // one more count-up event is consumed without overflowing the count
    count_up(&mut ctu);
    assert_eq!(cv_of(&ctu), u16::MAX);
    assert_eq!(ctu.active_event_in(), None);
}

#[test]
fn counter_reset_zeroes_count_and_q() {
    let mut ctu = E_CTU::new("ctu0");
    ctu.write_data_in("pv", &DataBuffer::UInt(2)).unwrap();
    count_up(&mut ctu);
    count_up(&mut ctu);
    assert!(q_of(&ctu));
    // a runtime would clear the count-up outputs after propagating them
    ctu.clear_event_out();
    ctu.set_event_in("r").unwrap();
    run_until_stable(&mut ctu);
    assert_eq!(cv_of(&ctu), 0);
    assert!(!q_of(&ctu));
    assert_eq!(ctu.active_event_out(), Some("ro".to_string()));
}

#[test]
fn counter_interface_and_errors() {
    let mut ctu = E_CTU::new("ctu0");
    assert_eq!(ctu.instance_name(), "ctu0");
    assert_eq!(ctu.with_for_event("cu").unwrap(), vec!["pv"]);
    assert_eq!(ctu.with_for_event("cuo").unwrap(), vec!["q", "cv"]);
    assert_eq!(ctu.with_for_event("r").unwrap(), Vec::<String>::new());
    assert_eq!(ctu.data_kind("pv"), Ok(DataKind::UInt));
    assert_eq!(ctu.data_kind("q"), Ok(DataKind::Bool));
    assert_eq!(ctu.set_event_in("boom"), Err(FbError::UnknownEvent));
    assert_eq!(
        ctu.write_data_in("pv", &DataBuffer::Bool(true)),
        Err(FbError::DataKindMismatch)
    );
    assert_eq!(
        ctu.write_data_in("q", &DataBuffer::Bool(true)),
        Err(FbError::UnknownDataField)
    );
}

#[test]
fn count_up_fires_cuo_with_data() {
    let mut ctu = E_CTU::new("ctu0");
    ctu.write_data_in("pv", &DataBuffer::UInt(1)).unwrap();
    ctu.set_event_in("cu").unwrap();
    assert!(ctu.invoke_execution_control());
    // after one transition the count is already up and cuo pending
    assert_eq!(cv_of(&ctu), 1);
    assert_eq!(ctu.active_event_out(), Some("cuo".to_string()));
    assert!(ctu.invoke_execution_control());
    assert!(!ctu.invoke_execution_control());
    ctu.clear_event_out();
    assert_eq!(ctu.active_event_out(), None);
}
