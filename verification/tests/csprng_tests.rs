use concrete_cpu::csprng::{CounterCsprng, Csprng, try_fill_exact};

#[test]
fn exhaustion_accounting() {
    let mut generator = CounterCsprng::new(32);
    assert_eq!(generator.remaining_bytes().to_u128(), 32);

    let mut buffer = vec![0u8; 16];
    assert_eq!(generator.next_bytes(&mut buffer, 16), 16);
    assert_eq!(generator.remaining_bytes().to_u128(), 16);

    assert_eq!(generator.next_bytes(&mut buffer, 16), 16);
    assert_eq!(generator.remaining_bytes().to_u128(), 0);

    assert_eq!(generator.next_bytes(&mut buffer, 16), 0);
    assert_eq!(generator.remaining_bytes().to_u128(), 0);
}

#[test]
fn zero_request_is_a_no_op() {
    let mut generator = CounterCsprng::new(8);
    let mut buffer = vec![0xaau8; 4];
    assert_eq!(generator.next_bytes(&mut buffer, 0), 0);
    assert_eq!(buffer, vec![0xaau8; 4]);
    assert_eq!(generator.remaining_bytes().to_u128(), 8);
}

#[test]
fn short_return_on_insufficient_capacity() {
    let mut generator = CounterCsprng::new(5);
    let mut buffer = vec![0u8; 12];
    assert_eq!(generator.next_bytes(&mut buffer, 12), 5);
    assert_eq!(generator.remaining_bytes().to_u128(), 0);
}

#[test]
fn bytes_beyond_produced_count_untouched() {
    let mut generator = CounterCsprng::new(3);
    let mut buffer = vec![0x55u8; 8];
    assert_eq!(generator.next_bytes(&mut buffer, 8), 3);
    assert_eq!(&buffer[3..], &[0x55u8; 5]);
}

#[test]
fn counter_provider_writes_a_running_counter() {
    let mut generator = CounterCsprng::new(300);
    let mut buffer = vec![0u8; 300];
    assert_eq!(generator.next_bytes(&mut buffer, 300), 300);
    for (i, b) in buffer.iter().enumerate() {
        assert_eq!(*b, (i % 256) as u8);
    }
}

#[test]
fn try_fill_exact_succeeds_when_capacity_suffices() {
    let mut generator = CounterCsprng::new(10);
    let mut buffer = vec![0u8; 10];
    assert!(try_fill_exact(&mut generator, &mut buffer, 10));
    assert_eq!(generator.remaining_bytes().to_u128(), 0);
}

#[test]
fn try_fill_exact_refuses_and_leaves_everything_untouched() {
    let mut generator = CounterCsprng::new(7);
    let mut buffer = vec![0x11u8; 8];
    assert!(!try_fill_exact(&mut generator, &mut buffer, 8));
    assert_eq!(generator.remaining_bytes().to_u128(), 7);
    assert_eq!(buffer, vec![0x11u8; 8]);
}
