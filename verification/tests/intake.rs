use hell0::pool::intake::{Delivery, Intake, SubmitError};

#[test]
fn new_intake_is_open_and_empty() {
    let mut intake: Intake<u32> = Intake::new();
    assert!(intake.is_open());
    assert_eq!(intake.len(), 0);
    assert_eq!(intake.take(), Delivery::Pending);
}

#[test]
fn intake_hands_jobs_out_oldest_first() {
    let mut intake = Intake::new();
    for token in [5u32, 3, 9] {
        assert_eq!(intake.submit(token), Ok(()));
    }
    assert_eq!(intake.len(), 3);
    assert_eq!(intake.take(), Delivery::Job(5));
    assert_eq!(intake.submit(1), Ok(()));
    assert_eq!(intake.take(), Delivery::Job(3));
    assert_eq!(intake.take(), Delivery::Job(9));
    assert_eq!(intake.take(), Delivery::Job(1));
    assert_eq!(intake.take(), Delivery::Pending);
    assert_eq!(intake.len(), 0);
}

#[test]
fn closing_discards_what_is_queued() {
    let mut intake = Intake::new();
    intake.submit(1u32).unwrap();
    intake.submit(2u32).unwrap();
    assert_eq!(intake.take(), Delivery::Job(1));
    intake.submit(3u32).unwrap();
    assert_eq!(intake.close(), 2);
    assert!(!intake.is_open());
    assert_eq!(intake.len(), 0);
    assert_eq!(intake.take(), Delivery::Disconnected);
    assert_eq!(intake.close(), 0);
}

#[test]
fn closed_intake_refuses_jobs() {
    let mut intake = Intake::new();
    assert_eq!(intake.close(), 0);
    assert_eq!(intake.submit(8u32), Err(SubmitError));
    assert_eq!(intake.len(), 0);
    assert_eq!(intake.take(), Delivery::Disconnected);
}

#[test]
fn submit_error_message() {
    assert_eq!(SubmitError.message(), "Job submitted after the pool began to shut down");
}
