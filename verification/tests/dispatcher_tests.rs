use std::cell::RefCell;
use std::rc::Rc;

use joycon_rs::joycon::pending::{PendingTable, StopReason};
use joycon_rs::joycon::{
    encode, Action, ActionKind, ActionRequest, DecodeError, DeviceCapabilities, DeviceIdentity,
    FrameOutcome, HandlerStatus, InputHandlerThread, InputReport, OutputDispatcher, OutputStep,
    Reply, ValidationError,
};

type Handler = Box<dyn Fn(&InputReport) -> HandlerStatus>;

fn request(action: Action, at: u64) -> ActionRequest {
    ActionRequest {
        action,
        target: DeviceIdentity::new(1406, 8198, vec![b'a']),
        enqueued_at: at,
    }
}

fn led(correlation: u8, mask: u8) -> Action {
    Action::new(correlation, ActionKind::SetPlayerLed { mask })
}

fn recorder(log: &Rc<RefCell<Vec<(u8, InputReport)>>>, name: u8, status: HandlerStatus) -> Handler {
    let log = Rc::clone(log);
    Box::new(move |report: &InputReport| {
        log.borrow_mut().push((name, report.clone()));
        status
    })
}

const BATTERY: [u8; 5] = [0x23, 5, 0x68, 0x10, 1];
const BUTTONS: [u8; 12] = [0x3F, 1, 0, 0, 0, 0, 0, 0, 0, 0, 0, 0];

fn battery_report() -> InputReport {
    InputReport::BatteryVoltage { correlation: 5, voltage_mv: 4200, charging: true }
}

#[test]
fn writes_follow_enqueue_order() {
    let caps = DeviceCapabilities::joycon();
    let mut output = OutputDispatcher::new();
    let actions: Vec<Action> = (0..10u8).map(|i| led(i, i)).collect();
    for (i, action) in actions.iter().enumerate() {
        assert_eq!(output.enqueue(request(action.clone(), i as u64), &caps), Ok(i as u8));
    }
    assert_eq!(output.len(), 10);
    for action in &actions {
        assert_eq!(output.next_write(&caps), OutputStep::Write(encode(action)));
        output.write_done(true);
    }
    assert_eq!(output.next_write(&caps), OutputStep::Idle);
    assert_eq!(output.len(), 0);
}

#[test]
fn drain_hands_out_every_frame_in_order() {
    let caps = DeviceCapabilities::joycon();
    let mut output = OutputDispatcher::new();
    let actions = vec![led(3, 1), Action::new(4, ActionKind::QueryBattery), led(5, 2)];
    for action in &actions {
        output.enqueue(request(action.clone(), 0), &caps).unwrap();
    }
    let frames = output.drain(&caps);
    let expected: Vec<_> = actions.iter().map(encode).collect();
    assert_eq!(frames, expected);
    assert_eq!(output.len(), 0);
}

#[test]
fn invalid_action_never_reaches_the_queue() {
    let caps = DeviceCapabilities::joycon();
    let mut output = OutputDispatcher::new();
    output.enqueue(request(led(1, 1), 0), &caps).unwrap();
    assert_eq!(
        output.enqueue(request(led(2, 0x80), 0), &caps),
        Err(ValidationError::LedMaskOutOfRange)
    );
    assert_eq!(output.len(), 1);
    assert_eq!(output.next_write(&caps), OutputStep::Write(encode(&led(1, 1))));
}

#[test]
fn queued_action_is_validated_again_before_the_write() {
    let wide = DeviceCapabilities { player_led_bits: 8, ..DeviceCapabilities::joycon() };
    let narrow = DeviceCapabilities::joycon();
    let mut output = OutputDispatcher::new();
    output.enqueue(request(led(1, 0x80), 0), &wide).unwrap();
    output.enqueue(request(led(2, 0x01), 0), &wide).unwrap();
    assert_eq!(
        output.next_write(&narrow),
        OutputStep::Rejected(ValidationError::LedMaskOutOfRange)
    );
    assert_eq!(output.next_write(&narrow), OutputStep::Write(encode(&led(2, 0x01))));
    output.enqueue(request(led(3, 0x80), 0), &wide).unwrap();
    output.enqueue(request(led(4, 0x02), 0), &wide).unwrap();
    assert_eq!(output.drain(&narrow), vec![encode(&led(4, 0x02))]);
}

#[test]
fn failed_write_stops_the_output_loop() {
    let caps = DeviceCapabilities::joycon();
    let mut output = OutputDispatcher::new();
    output.enqueue(request(led(1, 1), 0), &caps).unwrap();
    output.enqueue(request(led(2, 2), 0), &caps).unwrap();
    assert_eq!(output.next_write(&caps), OutputStep::Write(encode(&led(1, 1))));
    assert!(!output.is_stopped());
    output.write_done(false);
    assert!(output.is_stopped());
    assert_eq!(output.next_write(&caps), OutputStep::Stopped);
    assert_eq!(output.len(), 1);
    assert_eq!(output.drain(&caps), vec![]);
    assert_eq!(output.len(), 1);
    output.write_done(true);
    assert!(output.is_stopped());
}

#[test]
fn stop_discards_the_queue() {
    let caps = DeviceCapabilities::joycon();
    let mut output = OutputDispatcher::new();
    output.enqueue(request(led(1, 1), 0), &caps).unwrap();
    output.stop();
    assert!(output.is_stopped());
    assert_eq!(output.len(), 0);
    assert_eq!(output.next_write(&caps), OutputStep::Stopped);
}

#[test]
fn handlers_run_in_registration_order() {
    let log = Rc::new(RefCell::new(Vec::new()));
    let mut input: InputHandlerThread<Handler> = InputHandlerThread::new();
    assert_eq!(input.handler_count(), 0);
    for name in [3u8, 1, 2] {
        input.register(recorder(&log, name, HandlerStatus::Done));
    }
    assert_eq!(input.handler_count(), 3);
    let statuses = input.dispatch(&battery_report());
    assert_eq!(statuses, vec![HandlerStatus::Done; 3]);
    let seen: Vec<u8> = log.borrow().iter().map(|(name, _)| *name).collect();
    assert_eq!(seen, vec![3, 1, 2]);
    assert!(log.borrow().iter().all(|(_, report)| *report == battery_report()));
}

#[test]
fn failing_handler_does_not_stop_delivery() {
    let log = Rc::new(RefCell::new(Vec::new()));
    let mut input: InputHandlerThread<Handler> = InputHandlerThread::new();
    input.register(recorder(&log, 1, HandlerStatus::Done));
    input.register(recorder(&log, 2, HandlerStatus::Failed));
    input.register(recorder(&log, 3, HandlerStatus::Done));
    let first = input.on_frame(&BATTERY);
    assert_eq!(
        first,
        FrameOutcome::Delivered {
            report: battery_report(),
            statuses: vec![HandlerStatus::Done, HandlerStatus::Failed, HandlerStatus::Done],
            answered: false,
        }
    );
    let second = input.on_frame(&BUTTONS);
    match second {
        FrameOutcome::Delivered { statuses, .. } => {
            assert_eq!(
                statuses,
                vec![HandlerStatus::Done, HandlerStatus::Failed, HandlerStatus::Done]
            );
        }
        other => panic!("not delivered: {:?}", other),
    }
    let seen: Vec<u8> = log.borrow().iter().map(|(name, _)| *name).collect();
    assert_eq!(seen, vec![1, 2, 3, 1, 2, 3]);
}

#[test]
fn undecodable_frame_is_dropped_and_the_next_one_delivered() {
    let log = Rc::new(RefCell::new(Vec::new()));
    let mut input: InputHandlerThread<Handler> = InputHandlerThread::new();
    input.register(recorder(&log, 1, HandlerStatus::Done));
    assert_eq!(input.on_frame(&[0x99, 1, 2]), FrameOutcome::Dropped(DecodeError::UnknownReportId));
    assert_eq!(input.on_frame(&[0x23, 1]), FrameOutcome::Dropped(DecodeError::TruncatedFrame));
    assert_eq!(input.on_frame(&[]), FrameOutcome::Dropped(DecodeError::TruncatedFrame));
    assert!(log.borrow().is_empty());
    assert!(matches!(input.on_frame(&BATTERY), FrameOutcome::Delivered { .. }));
    assert_eq!(log.borrow().len(), 1);
}

#[test]
fn reply_reaches_the_request_that_waits_for_it() {
    let mut input: InputHandlerThread<Handler> = InputHandlerThread::new();
    assert!(input.await_reply(5, 100));
    assert!(!input.await_reply(5, 200));
    assert_eq!(input.take_reply(5, 99), Reply::Pending);
    assert_eq!(input.take_reply(6, 99), Reply::Unknown);
    match input.on_frame(&BATTERY) {
        FrameOutcome::Delivered { answered, .. } => assert!(answered),
        other => panic!("not delivered: {:?}", other),
    }
    match input.on_frame(&BATTERY) {
        FrameOutcome::Delivered { answered, .. } => assert!(!answered),
        other => panic!("not delivered: {:?}", other),
    }
    assert_eq!(input.take_reply(5, 1000), Reply::Ready(battery_report()));
    assert_eq!(input.take_reply(5, 1000), Reply::Unknown);
    assert!(input.await_reply(5, 2000));
}

#[test]
fn pending_table_deadlines() {
    let mut table = PendingTable::new();
    assert!(table.is_free(0));
    assert!(table.is_free(255));
    assert!(table.begin(0, 10));
    assert!(table.begin(255, 0));
    assert!(!table.is_free(0));
    assert_eq!(table.poll(0, 9), Reply::Pending);
    assert_eq!(table.poll(0, 10), Reply::TimedOut);
    assert_eq!(table.poll(0, 10), Reply::Unknown);
    assert_eq!(table.poll(255, 0), Reply::TimedOut);
    assert!(table.is_free(255));
}

#[test]
fn pending_table_stop_ends_only_waiting_requests() {
    let mut table = PendingTable::new();
    table.begin(1, 100);
    table.begin(2, 100);
    table.begin(3, 100);
    assert!(table.resolve(&InputReport::SubcommandAck {
        correlation: 2,
        subcommand: 0x10,
        accepted: true,
        data: vec![1],
    }));
    assert!(!table.resolve(&InputReport::ButtonStickState {
        buttons: 0,
        left_x: 0,
        left_y: 0,
        right_x: 0,
        right_y: 0,
    }));
    assert!(!table.resolve(&InputReport::BatteryVoltage {
        correlation: 9,
        voltage_mv: 1,
        charging: false,
    }));
    table.stop_all(StopReason::Shutdown);
    assert_eq!(table.poll(1, 0), Reply::Cancelled);
    assert!(matches!(table.poll(2, 0), Reply::Ready(_)));
    assert_eq!(table.poll(9, 0), Reply::Unknown);
    table.stop_all(StopReason::TransportFailure);
    assert_eq!(table.poll(3, 0), Reply::Cancelled);
    table.begin(4, 100);
    table.stop_all(StopReason::TransportFailure);
    assert_eq!(table.poll(4, 0), Reply::TransportFailed);
}
