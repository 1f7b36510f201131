use kinglish::icon::icon_dimensions;
use kinglish::supervisor::{notice_for, ExitOutcome, HandoffQueue, Notice, Step};

#[test]
fn notices_by_outcome() {
    assert_eq!(notice_for(ExitOutcome::Success), None);
    assert_eq!(notice_for(ExitOutcome::Failure), Some(Notice::CommandFailed));
    assert_eq!(notice_for(ExitOutcome::WaitError), Some(Notice::UnexpectedError));
}

#[test]
fn third_dispatch_waits_until_first_is_finished() {
    let mut q: HandoffQueue<u32> = HandoffQueue::new(2);
    assert_eq!(q.offer(1), Ok(()));
    assert_eq!(q.offer(2), Ok(()));
    assert_eq!(q.in_flight(), 2);
    assert_eq!(q.offer(3), Err(3));
    assert!(matches!(q.take(), Step::Serve(1)));
    assert_eq!(q.offer(3), Err(3));
    assert_eq!(q.finish(ExitOutcome::Success), None);
    assert_eq!(q.offer(3), Ok(()));
    assert!(matches!(q.take(), Step::Serve(2)));
}

#[test]
fn consumer_waits_on_one_handle_at_a_time() {
    let mut q: HandoffQueue<u32> = HandoffQueue::new(2);
    assert!(matches!(q.take(), Step::Idle));
    assert_eq!(q.offer(7), Ok(()));
    assert!(matches!(q.take(), Step::Serve(7)));
    assert_eq!(q.offer(8), Ok(()));
    assert!(matches!(q.take(), Step::Idle));
    assert_eq!(q.offer(9), Err(9));
    assert_eq!(q.finish(ExitOutcome::Success), None);
    assert!(matches!(q.take(), Step::Serve(8)));
}

#[test]
fn failed_process_is_reported_once_and_serving_goes_on() {
    let mut q: HandoffQueue<u32> = HandoffQueue::new(2);
    assert_eq!(q.offer(1), Ok(()));
    assert_eq!(q.offer(2), Ok(()));
    assert!(matches!(q.take(), Step::Serve(1)));
    assert_eq!(q.finish(ExitOutcome::Failure), Some(Notice::CommandFailed));
    assert!(matches!(q.take(), Step::Serve(2)));
    assert_eq!(q.finish(ExitOutcome::WaitError), Some(Notice::UnexpectedError));
    assert_eq!(q.in_flight(), 0);
    assert!(matches!(q.take(), Step::Idle));
}

#[test]
fn closing_drains_then_stops() {
    let mut q: HandoffQueue<u32> = HandoffQueue::new(2);
    assert_eq!(q.offer(1), Ok(()));
    q.close();
    assert_eq!(q.offer(2), Err(2));
    assert!(matches!(q.take(), Step::Serve(1)));
    assert!(matches!(q.take(), Step::Idle));
    assert_eq!(q.finish(ExitOutcome::Success), None);
    assert!(matches!(q.take(), Step::Stop));
}

#[test]
fn zero_capacity_takes_nothing() {
    let mut q: HandoffQueue<u32> = HandoffQueue::new(0);
    assert_eq!(q.offer(1), Err(1));
    assert!(matches!(q.take(), Step::Idle));
}

#[test]
fn icon_dimensions_are_big_endian() {
    assert_eq!(icon_dimensions(&[0, 0, 1, 0, 0, 0, 0, 32]), Some((256, 32)));
    assert_eq!(icon_dimensions(&[255, 255, 255, 255, 1, 2, 3, 4]), Some((u32::MAX, 0x0102_0304)));
}

#[test]
fn icon_dimensions_need_eight_bytes() {
    assert_eq!(icon_dimensions(&[0, 0, 0, 1, 0, 0, 0]), None);
    assert_eq!(icon_dimensions(&[0; 9]), None);
    assert_eq!(icon_dimensions(&[]), None);
}
