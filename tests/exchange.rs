use autd_segments::{increment_msg_id, settle, AckOutcome, AckReport, EngineError, Exchange, FirmwareFault, Step};

fn ack(msg_id: u8, err: u8) -> AckReport {
    AckReport { msg_id, err }
}

#[test]
fn settle_waits_for_every_device() {
    assert_eq!(AckOutcome::Waiting, settle(3, &vec![ack(3, 0), ack(2, 0)]));
    assert_eq!(AckOutcome::Done(None), settle(3, &vec![ack(3, 0), ack(3, 0)]));
    assert_eq!(AckOutcome::Done(None), settle(3, &vec![]));
}

#[test]
fn settle_reports_invalid_message_id_as_transport_fault() {
    assert_eq!(
        AckOutcome::Done(Some(FirmwareFault::Transport)),
        settle(0x10, &vec![ack(0, 2), ack(5, 2)])
    );
    assert_eq!(AckOutcome::Waiting, settle(0x10, &vec![ack(0, 0)]));
}

#[test]
fn settle_reports_first_engine_fault() {
    assert_eq!(
        AckOutcome::Done(Some(FirmwareFault::Engine(EngineError::InvalidSilencerSettings))),
        settle(1, &vec![ack(1, 0), ack(1, 7)])
    );
    assert_eq!(
        AckOutcome::Done(Some(FirmwareFault::Engine(EngineError::InvalidSegmentTransition))),
        settle(1, &vec![ack(1, 5), ack(1, 8)])
    );
    assert_eq!(
        AckOutcome::Done(Some(FirmwareFault::Engine(EngineError::MissTransitionTime))),
        settle(1, &vec![ack(1, 6)])
    );
    assert_eq!(
        AckOutcome::Done(Some(FirmwareFault::Engine(EngineError::InvalidTransitionMode))),
        settle(1, &vec![ack(1, 8)])
    );
    assert_eq!(AckOutcome::Done(Some(FirmwareFault::Transport)), settle(1, &vec![ack(1, 9)]));
}

#[test]
fn exchange_polls_then_finishes() {
    let x = Exchange { msg_id: 4, retries_left: 2 };
    assert_eq!((x, Step::Poll), x.on_acks(&vec![ack(3, 0)]));
    assert_eq!((x, Step::Finish(None)), x.on_acks(&vec![ack(4, 0), ack(4, 0)]));
}

#[test]
fn exchange_retries_transport_faults_with_fresh_id() {
    let x = Exchange { msg_id: 4, retries_left: 2 };
    let (y, step) = x.on_acks(&vec![ack(4, 2)]);
    assert_eq!(Step::Resend { msg_id: 5 }, step);
    assert_eq!(Exchange { msg_id: 5, retries_left: 1 }, y);
    let (z, step) = Exchange { msg_id: 15, retries_left: 1 }.on_timeout();
    assert_eq!(Step::Resend { msg_id: 0 }, step);
    assert_eq!(Exchange { msg_id: 0, retries_left: 0 }, z);
    let (w, step) = z.on_timeout();
    assert_eq!(Step::Finish(Some(FirmwareFault::Transport)), step);
    assert_eq!(z, w);
}

#[test]
fn exchange_never_retries_engine_faults() {
    let x = Exchange { msg_id: 7, retries_left: 5 };
    assert_eq!(
        (x, Step::Finish(Some(FirmwareFault::Engine(EngineError::MissTransitionTime)))),
        x.on_acks(&vec![ack(7, 6)])
    );
}

#[test]
fn message_ids_wrap_after_the_highest() {
    assert_eq!(1, increment_msg_id(0));
    assert_eq!(15, increment_msg_id(14));
    assert_eq!(0, increment_msg_id(15));
    assert_eq!(0, increment_msg_id(200));
}
