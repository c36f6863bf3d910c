use particle_trails::error::ConfigError;
use particle_trails::sphere::{
    SphereInstance, TickEvent, TickWork, ATTRS_ENABLED, ATTRS_NONE, SAMPLE_PERIOD, TAIL_CAPACITY,
};

#[test]
fn new_instance_is_dormant_and_empty() {
    let s = SphereInstance::<[i32; 3]>::new(TAIL_CAPACITY, SAMPLE_PERIOD).unwrap();
    assert!(!s.enabled());
    assert_eq!(s.due(), TickWork::Draw);
    assert_eq!(s.tail_len(), 0);
    assert_eq!(s.raw_tail(), Vec::<[i32; 3]>::new());
    assert_eq!(s.attrs(), ATTRS_NONE);
}

#[test]
fn usual_sizes() {
    assert_eq!(TAIL_CAPACITY, 1024);
    assert_eq!(SAMPLE_PERIOD, 4);
    assert_eq!(ATTRS_NONE, 0);
    assert_eq!(ATTRS_ENABLED, 1);
}

#[test]
fn zero_sizes_are_refused() {
    assert!(matches!(
        SphereInstance::<u8>::new(0, 4),
        Err(ConfigError::ZeroCapacity)
    ));
    assert!(matches!(
        SphereInstance::<u8>::new(16, 0),
        Err(ConfigError::ZeroPeriod)
    ));
    assert!(matches!(
        SphereInstance::<u8>::new(0, 0),
        Err(ConfigError::ZeroCapacity)
    ));
}

#[test]
fn failed_draw_leaves_instance_dormant() {
    let mut s = SphereInstance::<u8>::new(8, 2).unwrap();
    s.update(TickEvent::Drawn(false));
    assert!(!s.enabled());
    assert_eq!(s.due(), TickWork::Draw);
    assert_eq!(s.attrs(), 0);
}

#[test]
fn successful_draw_activates() {
    let mut s = SphereInstance::<u8>::new(8, 2).unwrap();
    s.update(TickEvent::Drawn(true));
    assert!(s.enabled());
    assert_eq!(s.due(), TickWork::Step);
    assert_eq!(s.attrs(), 1);
    assert_eq!(s.tail_len(), 0);
}

#[test]
fn activation_is_never_undone() {
    let mut s = SphereInstance::<u32>::new(8, 3).unwrap();
    s.update(TickEvent::Drawn(true));
    for n in 0..50u32 {
        s.update(TickEvent::Drawn(false));
        assert!(s.enabled());
        s.update(TickEvent::Stepped(n));
        assert!(s.enabled());
        s.update(TickEvent::Drawn(true));
        assert!(s.enabled());
        s.push_tail(n);
        assert!(s.enabled());
    }
}

#[test]
fn dormant_instance_records_nothing() {
    let mut s = SphereInstance::<u32>::new(8, 1).unwrap();
    s.update(TickEvent::Stepped(5));
    s.update(TickEvent::Stepped(6));
    assert_eq!(s.tail_len(), 0);
    s.update(TickEvent::Drawn(true));
    // The sampler has not moved meanwhile: the first step after activation is recorded.
    s.update(TickEvent::Stepped(7));
    assert_eq!(s.raw_tail(), vec![7]);
}

#[test]
fn active_instance_ignores_draws() {
    let mut s = SphereInstance::<u32>::new(8, 2).unwrap();
    s.update(TickEvent::Drawn(true));
    s.update(TickEvent::Stepped(1));
    s.update(TickEvent::Drawn(false));
    s.update(TickEvent::Drawn(true));
    s.update(TickEvent::Stepped(2));
    s.update(TickEvent::Stepped(3));
    assert_eq!(s.raw_tail(), vec![3, 1]);
}

#[test]
fn every_fourth_step_is_recorded() {
    let mut s = SphereInstance::<u32>::new(TAIL_CAPACITY, SAMPLE_PERIOD).unwrap();
    s.update(TickEvent::Drawn(true));
    for n in 0..10u32 {
        s.update(TickEvent::Stepped(n));
    }
    assert_eq!(s.raw_tail(), vec![8, 4, 0]);
    assert_eq!(s.tail_len(), 3);
}

#[test]
fn push_tail_samples_whatever_the_activation() {
    let mut s = SphereInstance::<u32>::new(2, 3).unwrap();
    for n in 0..10u32 {
        s.push_tail(n);
    }
    assert!(!s.enabled());
    assert_eq!(s.raw_tail(), vec![9, 6]);
    assert_eq!(s.tail_len(), 2);
}

#[test]
fn copied_event_is_the_same_event() {
    assert!(matches!(TickEvent::<u8>::Drawn(true).copied(), TickEvent::Drawn(true)));
    assert!(matches!(TickEvent::<u8>::Drawn(false).copied(), TickEvent::Drawn(false)));
    assert!(matches!(TickEvent::Stepped(9u8).copied(), TickEvent::Stepped(9)));
}
