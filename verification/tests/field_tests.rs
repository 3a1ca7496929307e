//! Behaviour of the field primitives: event signals, typed data holders and
//! the type-erased data buffer.

use iec_61499_fb_rs::fb::data::{
    Bool, Data, DataBuffer, DataKind, DataType, Str, Time, UInt, buffer_variant_eq, kind_eq,
    toggle,
};
use iec_61499_fb_rs::fb::direction::{In, Out};
use iec_61499_fb_rs::fb::event::{Event, Signal};
use iec_61499_fb_rs::run_time::connection::Port;
use iec_61499_fb_rs::{contains_str, str_eq};

#[test]
fn event_input_is_consumed_edge_style() {
    let mut ev: Event<In, Signal> = Event::new();
    assert!(!ev.read());
    ev.receive();
    assert!(ev.read());
    assert!(ev.read_and_reset());
    assert!(!ev.read());
    assert!(!ev.read_and_reset());
}

#[test]
fn event_output_is_sent_and_cleared() {
    let mut ev: Event<Out, Signal> = Event::new();
    ev.send();
    assert!(ev.read());
    ev.reset();
    assert!(!ev.read());
}

#[test]
fn data_fields_hold_and_update_values() {
    let mut gate: Data<In, Bool> = Data::of(false);
    assert!(!gate.read());
    gate.update(true);
    assert!(gate.read());
    toggle(&mut gate);
    assert!(!gate.read());
    assert_eq!(gate.as_kind(), DataKind::Bool);

    let mut count: Data<Out, UInt> = Data::of(7);
    assert_eq!(count.read(), 7);
    count.write(8);
    assert!(matches!(count.as_buf(), DataBuffer::UInt(8)));
}

#[test]
fn typed_holders_round_trip_through_buffers() {
    let t = Time::make(1_500_000_000);
    assert!(matches!(t.as_buf(), DataBuffer::Time(1_500_000_000)));
    let s = Str::make(vec![104, 105]);
    match s.as_buf() {
        DataBuffer::Str(bytes) => assert_eq!(bytes, vec![104, 105]),
        other => panic!("wrong buffer variant: {:?}", other),
    }
    assert_eq!(s.get(), vec![104, 105]);
    assert_eq!(Str::make(vec![]).get(), Vec::<u8>::new());
}

#[test]
fn buffer_kinds_compare_by_variant() {
    let b = DataBuffer::Bool(true);
    let u = DataBuffer::UInt(1);
    assert_eq!(b.kind(), Some(DataKind::Bool));
    assert_eq!(DataBuffer::Unassigned.kind(), None);
    assert!(buffer_variant_eq(&b, &DataBuffer::Bool(false)));
    assert!(!buffer_variant_eq(&b, &u));
    assert!(buffer_variant_eq(&DataBuffer::Unassigned, &DataBuffer::Unassigned));
    assert!(kind_eq(&DataKind::UInt, &DataKind::UInt));
    assert!(!kind_eq(&DataKind::UInt, &DataKind::Word));
}

#[test]
fn name_helpers_compare_by_content() {
    assert!(str_eq("vote", "vote"));
    assert!(!str_eq("vote", "voted"));
    let names = vec!["a".to_string(), "b".to_string()];
    assert!(contains_str(&names, "b"));
    assert!(!contains_str(&names, "c"));
}

#[test]
fn ports_carry_their_two_names() {
    let p: Port<Out> = Port::new("voter0", "state");
    assert_eq!(p.fb_name, "voter0");
    assert_eq!(p.fb_field, "state");
}
