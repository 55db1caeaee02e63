use mirkobo::channel::{OrderedChannel, SheddingChannel, WorkerStep};

#[test]
fn ordered_channel_keeps_order() {
    let mut c = OrderedChannel::new();
    assert_eq!(c.push((1u16, 1u16)), Ok(()));
    assert_eq!(c.push((2, 2)), Ok(()));
    assert_eq!(c.push((3, 3)), Ok(()));
    assert_eq!(c.pop(), WorkerStep::Run((1, 1)));
    assert_eq!(c.pop(), WorkerStep::Run((2, 2)));
    assert_eq!(c.pop(), WorkerStep::Run((3, 3)));
    assert_eq!(c.pop(), WorkerStep::Wait);
}

#[test]
fn ordered_channel_close_discards_and_stops() {
    let mut c = OrderedChannel::new();
    assert_eq!(c.push(5u32), Ok(()));
    c.close();
    assert!(c.is_closed());
    assert_eq!(c.pop(), WorkerStep::Stop);
    assert_eq!(c.push(6), Err(6));
    assert_eq!(c.pop(), WorkerStep::Stop);
}

#[test]
fn shedding_channel_refuses_second_job() {
    let mut c = SheddingChannel::new();
    assert_eq!(c.try_push('a'), Ok(()));
    assert_eq!(c.try_push('b'), Err('b'));
    assert_eq!(c.take(), WorkerStep::Run('a'));
    assert_eq!(c.take(), WorkerStep::Wait);
}

#[test]
fn shedding_channel_busy_while_in_service() {
    let mut c = SheddingChannel::new();
    assert_eq!(c.try_push(1u8), Ok(()));
    assert_eq!(c.take(), WorkerStep::Run(1));
    assert_eq!(c.try_push(2), Err(2));
    assert!(c.finish());
    assert_eq!(c.try_push(3), Ok(()));
    assert_eq!(c.take(), WorkerStep::Run(3));
}

#[test]
fn shedding_channel_close_stops_worker() {
    let mut c = SheddingChannel::new();
    assert_eq!(c.try_push(1u8), Ok(()));
    assert_eq!(c.take(), WorkerStep::Run(1));
    c.close();
    assert!(c.is_closed());
    assert!(!c.finish());
    assert_eq!(c.take(), WorkerStep::Stop);
    assert_eq!(c.try_push(4), Err(4));
}
