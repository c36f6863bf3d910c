use particle_trails::error::ConfigError;
use particle_trails::population::Population;
use particle_trails::sphere::{TickEvent, TickWork};

#[test]
fn zero_sizes_of_a_population_are_refused() {
    assert!(matches!(
        Population::<u8>::new(0, 4, 4),
        Err(ConfigError::ZeroPopulation)
    ));
    assert!(matches!(
        Population::<u8>::new(0, 0, 0),
        Err(ConfigError::ZeroPopulation)
    ));
    assert!(matches!(
        Population::<u8>::new(3, 0, 4),
        Err(ConfigError::ZeroCapacity)
    ));
    assert!(matches!(
        Population::<u8>::new(3, 0, 0),
        Err(ConfigError::ZeroCapacity)
    ));
    assert!(matches!(
        Population::<u8>::new(3, 4, 0),
        Err(ConfigError::ZeroPeriod)
    ));
}

#[test]
fn new_population_is_dormant() {
    let p = Population::<u8>::new(5, 4, 2).unwrap();
    assert_eq!(p.len(), 5);
    assert_eq!(p.plan(), vec![TickWork::Draw; 5]);
    assert_eq!(p.attrs(), vec![0; 5]);
    assert_eq!(p.tails(), vec![Vec::<u8>::new(); 5]);
    assert!(p.get(4).is_some());
    assert!(p.get(5).is_none());
}

#[test]
fn update_reaches_one_instance_only() {
    let mut p = Population::<u8>::new(3, 4, 1).unwrap();
    assert!(p.update(1, TickEvent::Drawn(true)));
    assert!(p.update(1, TickEvent::Stepped(9)));
    assert!(!p.update(3, TickEvent::Drawn(true)));
    assert_eq!(p.len(), 3);
    assert_eq!(p.attrs(), vec![0, 1, 0]);
    assert_eq!(p.tails(), vec![vec![], vec![9], vec![]]);
    assert_eq!(p.plan(), vec![TickWork::Draw, TickWork::Step, TickWork::Draw]);
    assert!(p.get(1).unwrap().enabled());
    assert!(!p.get(0).unwrap().enabled());
}

#[test]
fn tick_hands_each_instance_its_own_event() {
    let mut p = Population::<u32>::new(4, 2, 1).unwrap();
    p.tick(&[
        TickEvent::Drawn(true),
        TickEvent::Drawn(false),
        TickEvent::Drawn(true),
        TickEvent::Stepped(99),
    ]);
    assert_eq!(p.attrs(), vec![1, 0, 1, 0]);
    p.tick(&[
        TickEvent::Stepped(10),
        TickEvent::Stepped(11),
        TickEvent::Stepped(12),
        TickEvent::Drawn(true),
    ]);
    p.tick(&[
        TickEvent::Stepped(20),
        TickEvent::Drawn(true),
        TickEvent::Stepped(22),
        TickEvent::Stepped(23),
    ]);
    p.tick(&[
        TickEvent::Stepped(30),
        TickEvent::Stepped(31),
        TickEvent::Stepped(32),
        TickEvent::Stepped(33),
    ]);
    assert_eq!(p.len(), 4);
    assert_eq!(p.attrs(), vec![1, 1, 1, 1]);
    assert_eq!(
        p.tails(),
        vec![vec![30, 20], vec![31], vec![32, 22], vec![33, 23]]
    );
}

#[test]
fn tick_with_too_few_or_too_many_events() {
    let mut p = Population::<u32>::new(3, 2, 1).unwrap();
    p.tick(&[TickEvent::Drawn(true)]);
    assert_eq!(p.attrs(), vec![1, 0, 0]);
    p.tick(&[
        TickEvent::Stepped(1),
        TickEvent::Drawn(true),
        TickEvent::Drawn(true),
        TickEvent::Drawn(true),
        TickEvent::Stepped(5),
    ]);
    assert_eq!(p.len(), 3);
    assert_eq!(p.attrs(), vec![1, 1, 1]);
    assert_eq!(p.tails(), vec![vec![1], vec![], vec![]]);
    p.tick(&[]);
    assert_eq!(p.attrs(), vec![1, 1, 1]);
    assert_eq!(p.tails(), vec![vec![1], vec![], vec![]]);
}

#[test]
fn driven_by_its_own_plan() {
    let mut p = Population::<u64>::new(6, 3, 2).unwrap();
    for tick in 0..40u64 {
        let events: Vec<TickEvent<u64>> = p
            .plan()
            .iter()
            .enumerate()
            .map(|(i, work)| match work {
                TickWork::Draw => TickEvent::Drawn(tick == i as u64),
                TickWork::Step => TickEvent::Stepped(100 * i as u64 + tick),
            })
            .collect();
        let before = p.attrs();
        p.tick(&events);
        let after = p.attrs();
        for i in 0..6 {
            assert!(before[i] <= after[i]);
        }
    }
    // Instance i is activated in tick i, steps from tick i + 1 on, and records every second step.
    let tails = p.tails();
    for i in 0..6u64 {
        let steps: Vec<u64> = (i + 1..40).collect();
        let expected: Vec<u64> = steps
            .iter()
            .step_by(2)
            .rev()
            .take(3)
            .map(|tick| 100 * i + tick)
            .collect();
        assert_eq!(tails[i as usize], expected);
    }
}
