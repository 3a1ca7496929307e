//! Behaviour of the runtime: registration, type-checked wiring, and the
//! step/send/receive cycle across a network of blocks.

use iec_61499_fb_rs::FbError;
use iec_61499_fb_rs::fb::Fb;
use iec_61499_fb_rs::fb::data::DataBuffer;
use iec_61499_fb_rs::fb_impl::block::Block;
use iec_61499_fb_rs::fb_impl::ctu::E_CTU;
use iec_61499_fb_rs::fb_impl::sr::E_SR;
use iec_61499_fb_rs::fb_impl::switch::E_SWITCH;
use iec_61499_fb_rs::fb_impl::voter::Voter;
use iec_61499_fb_rs::run_time::RunTime;
use iec_61499_fb_rs::run_time::connection::Delivery;

fn configured_voter(name: &str, a: bool, b: bool, c: bool, vote: bool) -> Block {
    let mut v = Voter::new(name);
    v.write_data_in("a", &DataBuffer::Bool(a)).unwrap();
    v.write_data_in("b", &DataBuffer::Bool(b)).unwrap();
    v.write_data_in("c", &DataBuffer::Bool(c)).unwrap();
    if vote {
        v.set_event_in("vote").unwrap();
    }
    Block::Voter(v)
}

#[test]
fn registration_rejects_duplicate_names() {
    let mut rt = RunTime::new();
    rt.add_fb(Block::Voter(Voter::new("v"))).unwrap();
    assert_eq!(
        rt.add_fb(Block::Sr(E_SR::new("v"))),
        Err(FbError::DuplicateInstanceName)
    );
    assert_eq!(rt.fbs().len(), 1);
}

#[test]
fn wiring_rejects_kind_mismatch() {
    let mut rt = RunTime::new();
    rt.add_fb(Block::Voter(Voter::new("v"))).unwrap();
    rt.add_fb(Block::Ctu(E_CTU::new("c"))).unwrap();
    // a boolean output cannot feed an integer input
    assert_eq!(
        rt.connect_data(("v", "state"), ("c", "pv")),
        Err(FbError::DataKindMismatch)
    );
    assert_eq!(rt.data_conns().len(), 0);
}

#[test]
fn wiring_rejects_self_connection() {
    let mut rt = RunTime::new();
    rt.add_fb(Block::Voter(Voter::new("v"))).unwrap();
    assert_eq!(
        rt.connect_event(("v", "voted"), ("v", "vote")),
        Err(FbError::SelfConnection)
    );
    assert_eq!(rt.event_conns().len(), 0);
}

#[test]
fn wiring_rejects_unregistered_instances() {
    let mut rt = RunTime::new();
    rt.add_fb(Block::Voter(Voter::new("v"))).unwrap();
    assert_eq!(
        rt.connect_event(("v", "voted"), ("ghost", "vote")),
        Err(FbError::UnregisteredInstanceReference)
    );
    assert_eq!(
        rt.connect_data(("ghost", "state"), ("v", "a")),
        Err(FbError::UnregisteredInstanceReference)
    );
}

#[test]
fn wiring_rejects_unknown_fields() {
    let mut rt = RunTime::new();
    rt.add_fb(Block::Voter(Voter::new("v"))).unwrap();
    rt.add_fb(Block::Sr(E_SR::new("sr"))).unwrap();
    assert_eq!(
        rt.connect_event(("v", "vote"), ("sr", "s")),
        Err(FbError::UnknownEvent)
    );
    assert_eq!(
        rt.connect_event(("v", "voted"), ("sr", "eo")),
        Err(FbError::UnknownEvent)
    );
    assert_eq!(
        rt.connect_data(("v", "nope"), ("sr", "q")),
        Err(FbError::UnknownDataField)
    );
}

#[test]
fn fan_in_delivers_first_and_defers_the_rest() {
    let mut rt = RunTime::new();
    rt.add_fb(configured_voter("voter0", true, true, false, true)).unwrap();
    rt.add_fb(configured_voter("voter1", true, false, true, true)).unwrap();
    rt.add_fb(configured_voter("voter2", false, true, true, true)).unwrap();
    rt.add_fb(configured_voter("voter3", false, false, false, false)).unwrap();

    rt.connect_event(("voter0", "voted"), ("voter3", "vote")).unwrap();
    rt.connect_event(("voter1", "voted"), ("voter3", "vote")).unwrap();
    rt.connect_event(("voter2", "voted"), ("voter3", "vote")).unwrap();
    rt.connect_data(("voter0", "state"), ("voter3", "a")).unwrap();
    rt.connect_data(("voter1", "state"), ("voter3", "b")).unwrap();
    rt.connect_data(("voter2", "state"), ("voter3", "c")).unwrap();

    // two steps: the three source voters compute and fire `voted`
    rt.step();
    rt.step();

    let outcomes = rt.send_from();
    assert_eq!(
        outcomes,
        vec![Delivery::Delivered, Delivery::Deferred, Delivery::Deferred]
    );
    // the first source was cleared, the losers keep their pending events
    assert_eq!(rt.fbs()[0].active_event_out(), None);
    assert_eq!(rt.fbs()[1].active_event_out(), Some("voted".to_string()));
    assert_eq!(rt.fbs()[2].active_event_out(), Some("voted".to_string()));
    // all three buffers were snapshotted, delivered or not
    for dc in rt.data_conns() {
        assert!(matches!(dc.buf, DataBuffer::Bool(true)));
    }

    rt.read_in();
    rt.step();
    rt.step();

    // the destination voted on the flushed inputs (true, true, true)
    match rt.fbs()[3].read_data_out("state").unwrap() {
        DataBuffer::Bool(b) => assert!(b),
        other => panic!("state has the wrong kind: {:?}", other),
    }
}

#[test]
fn deferred_event_is_retried_on_a_later_cycle() {
    let mut rt = RunTime::new();
    rt.add_fb(configured_voter("voter0", true, true, false, true)).unwrap();
    rt.add_fb(configured_voter("voter1", true, false, true, true)).unwrap();
    rt.add_fb(configured_voter("voter2", false, false, false, false)).unwrap();
    rt.connect_event(("voter0", "voted"), ("voter2", "vote")).unwrap();
    rt.connect_event(("voter1", "voted"), ("voter2", "vote")).unwrap();
    rt.step();
    rt.step();
    let outcomes = rt.send_from();
    assert_eq!(outcomes, vec![Delivery::Delivered, Delivery::Deferred]);
    rt.read_in();
    // the destination consumes its input event while computing
    rt.step();
    rt.step();
    // the loser's event is still pending and now finds the slot free
    let outcomes = rt.send_from();
    assert_eq!(outcomes, vec![Delivery::Idle, Delivery::Delivered]);
}

#[test]
fn switch_to_latch_network_routes_by_gate() {
    let mut rt = RunTime::new();
    let mut sw = E_SWITCH::new("switch0");
    sw.write_data_in("g", &DataBuffer::Bool(false)).unwrap();
    sw.set_event_in("ei").unwrap();
    rt.add_fb(Block::Switch(sw)).unwrap();
    rt.add_fb(Block::Sr(E_SR::new("sr0"))).unwrap();
    rt.connect_event(("switch0", "eo0"), ("sr0", "s")).unwrap();
    rt.connect_event(("switch0", "eo1"), ("sr0", "r")).unwrap();

    rt.step();
    rt.step();
    let outcomes = rt.send_from();
    assert_eq!(outcomes, vec![Delivery::Delivered, Delivery::Idle]);
    rt.read_in();
    rt.step();
    match rt.fbs()[1].read_data_out("q").unwrap() {
        DataBuffer::Bool(b) => assert!(b),
        other => panic!("q has the wrong kind: {:?}", other),
    }

    // flip `g`: the event now travels to the latch's reset input
    rt.fbs[0].write_data_in("g", &DataBuffer::Bool(true)).unwrap();
    rt.fbs[0].set_event_in("ei").unwrap();
    rt.step();
    rt.step();
    let outcomes = rt.send_from();
    assert_eq!(outcomes, vec![Delivery::Idle, Delivery::Delivered]);
    rt.read_in();
    rt.step();
    match rt.fbs()[1].read_data_out("q").unwrap() {
        DataBuffer::Bool(b) => assert!(!b),
        other => panic!("q has the wrong kind: {:?}", other),
    }
}

#[test]
fn removal_purges_referencing_connections() {
    let mut rt = RunTime::new();
    rt.add_fb(configured_voter("voter0", true, true, false, false)).unwrap();
    rt.add_fb(configured_voter("voter1", false, false, false, false)).unwrap();
    rt.add_fb(configured_voter("voter2", false, false, false, false)).unwrap();
    rt.connect_event(("voter0", "voted"), ("voter1", "vote")).unwrap();
    rt.connect_event(("voter1", "voted"), ("voter2", "vote")).unwrap();
    rt.connect_data(("voter0", "state"), ("voter1", "a")).unwrap();
    rt.connect_data(("voter1", "state"), ("voter2", "a")).unwrap();

    rt.remove_fb("voter1");
    assert_eq!(rt.fbs().len(), 2);
    assert_eq!(rt.fbs()[0].instance_name(), "voter0");
    assert_eq!(rt.fbs()[1].instance_name(), "voter2");
    assert_eq!(rt.event_conns().len(), 0);
    assert_eq!(rt.data_conns().len(), 0);
    // the freed name can be registered again
    rt.add_fb(configured_voter("voter1", false, false, false, false)).unwrap();
}

#[test]
fn removal_of_unknown_name_changes_nothing() {
    let mut rt = RunTime::new();
    rt.add_fb(configured_voter("voter0", true, true, false, false)).unwrap();
    rt.add_fb(configured_voter("voter1", false, false, false, false)).unwrap();
    rt.connect_event(("voter0", "voted"), ("voter1", "vote")).unwrap();
    rt.remove_fb("ghost");
    assert_eq!(rt.fbs().len(), 2);
    assert_eq!(rt.event_conns().len(), 1);
}

#[test]
fn step_advances_each_block_exactly_one_transition() {
    let mut rt = RunTime::new();
    let mut ctu = E_CTU::new("ctu0");
    ctu.write_data_in("pv", &DataBuffer::UInt(1)).unwrap();
    ctu.set_event_in("cu").unwrap();
    rt.add_fb(Block::Ctu(ctu)).unwrap();
    rt.step();
    // after one transition the counter sits in its count-up state
    match &rt.fbs()[0] {
        Block::Ctu(c) => assert!(matches!(
            c.ec_state,
            iec_61499_fb_rs::fb_impl::ctu::CtuState::Cu
        )),
        other => panic!("unexpected block: {:?}", other),
    }
    rt.step();
    match &rt.fbs()[0] {
        Block::Ctu(c) => assert!(matches!(
            c.ec_state,
            iec_61499_fb_rs::fb_impl::ctu::CtuState::Start
        )),
        other => panic!("unexpected block: {:?}", other),
    }
}

#[test]
fn clear_out_events_resets_every_block() {
    let mut rt = RunTime::new();
    rt.add_fb(configured_voter("voter0", true, true, true, true)).unwrap();
    rt.add_fb(configured_voter("voter1", true, true, true, true)).unwrap();
    rt.step();
    rt.step();
    assert_eq!(rt.fbs()[0].active_event_out(), Some("voted".to_string()));
    rt.clear_out_events();
    assert_eq!(rt.fbs()[0].active_event_out(), None);
    assert_eq!(rt.fbs()[1].active_event_out(), None);
}

#[test]
fn data_travels_only_with_its_event() {
    let mut rt = RunTime::new();
    rt.add_fb(configured_voter("voter0", true, true, false, true)).unwrap();
    rt.add_fb(configured_voter("voter1", false, false, false, false)).unwrap();
    rt.connect_event(("voter0", "voted"), ("voter1", "vote")).unwrap();
    rt.connect_data(("voter0", "state"), ("voter1", "a")).unwrap();
    // the buffer was primed at wiring time with the source's current value
    assert!(matches!(rt.data_conns()[0].buf, DataBuffer::Bool(false)));
    rt.step();
    rt.step();
    rt.send_from();
    // the snapshot took the freshly computed value
    assert!(matches!(rt.data_conns()[0].buf, DataBuffer::Bool(true)));
    // before the receive phase the destination still holds its old input
    match &rt.fbs()[1] {
        Block::Voter(v) => assert!(!v.a.read()),
        other => panic!("unexpected block: {:?}", other),
    }
    rt.read_in();
    match &rt.fbs()[1] {
        Block::Voter(v) => assert!(v.a.read()),
        other => panic!("unexpected block: {:?}", other),
    }
}
