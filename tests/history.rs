use trading_agent::fifo::BoundedFifo;

#[test]
fn fifo_keeps_the_latest_twenty() {
    let mut f: BoundedFifo<u32> = BoundedFifo::new(20);
    for i in 0..25u32 {
        f.push(i);
    }
    assert_eq!(f.len(), 20);
    assert_eq!(f.capacity(), 20);
    for i in 0..20usize {
        assert_eq!(*f.get(i), i as u32 + 5);
    }
}

#[test]
fn fifo_below_capacity_keeps_everything() {
    let mut f: BoundedFifo<u32> = BoundedFifo::new(3);
    f.push(7);
    f.push(8);
    assert_eq!(f.len(), 2);
    assert_eq!(*f.get(0), 7);
    assert_eq!(*f.get(1), 8);
}

#[test]
fn fifo_of_one_keeps_the_newest() {
    let mut f: BoundedFifo<u32> = BoundedFifo::new(1);
    f.push(1);
    f.push(2);
    assert_eq!(f.len(), 1);
    assert_eq!(*f.get(0), 2);
}
