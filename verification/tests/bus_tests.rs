use cozy_player::bus::{publish_block, Bus, BUFFER_SIZE};

#[test]
fn samples_come_back_in_publication_order() {
    let mut bus = Bus::new(8);
    bus.send(1);
    bus.send(2);
    bus.send(3);
    assert_eq!(bus.read(), vec![1, 2, 3]);
}

#[test]
fn reading_clears_the_queue() {
    let mut bus = Bus::new(8);
    bus.send(7);
    assert_eq!(bus.read(), vec![7]);
    assert_eq!(bus.read(), Vec::<u32>::new());
}

#[test]
fn a_full_bus_drops_new_samples_silently() {
    let mut bus = Bus::new(3);
    for v in 1..=5 {
        bus.send(v);
    }
    assert_eq!(bus.read(), vec![1, 2, 3]);
}

#[test]
fn publish_block_is_lossy_past_the_capacity() {
    let mut bus = Bus::new(4);
    bus.send(0);
    publish_block(&mut bus, &vec![1, 2, 3, 4, 5]);
    assert_eq!(bus.read(), vec![0, 1, 2, 3]);
}

#[test]
fn default_bus_has_the_monitor_capacity() {
    let mut bus = Bus::default();
    for v in 0..(BUFFER_SIZE as u32 + 5) {
        bus.send(v);
    }
    let drained = bus.read();
    assert_eq!(drained.len(), BUFFER_SIZE);
    assert_eq!(drained[0], 0);
    assert_eq!(drained[BUFFER_SIZE - 1], BUFFER_SIZE as u32 - 1);
}
