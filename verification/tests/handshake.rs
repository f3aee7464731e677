use miband::devices::bluetooth::Capabilities;
use miband::devices::miband::handshake::{signal, Action, AuthSignal, Event, Session, State};
use miband::devices::miband::registry::{
    missing, required, ALERT_LEVEL, BATTERY_INFO, CONTROL, DATE_TIME, DEVICE_INFO,
    HEART_RATE_CONTROL_POINT, HEART_RATE_MEASUREMENT, LE_PARAMS, NOTIFICATIONS, STEPS, USER_INFO,
};
use miband::devices::miband::User;
use miband::error::{Error, TransportFault};

fn everything() -> Vec<u128> {
    required(&Capabilities::all())
}

fn info_payload() -> Vec<u8> {
    vec![0, 1, 2, 3, 5, 6, 7, 0, 1, 2, 3, 4, 5, 6, 7, 8, 9, 10, 11, 12]
}

/// Plays the program's part: acts on what the session asks for and hands
/// back what happened, with the given notifications arriving in order.
fn run(session: &mut Session, notifications: &[&[u8]]) -> Vec<[u8; 20]> {
    let mut records = Vec::new();
    let mut incoming = notifications.iter();
    let mut action = session.step(Event::Connect);
    loop {
        let event = match action {
            Action::Discover => Event::Discovered(everything()),
            Action::ReadInfo => Event::Info(info_payload()),
            Action::WriteUser { auth } => {
                records.push(session.user_record(auth).unwrap());
                Event::UserWritten
            }
            Action::Listen => Event::Listening,
            Action::Wait => match incoming.next() {
                Some(payload) => Event::Notification(payload.to_vec()),
                None => return records,
            },
            Action::Setup | Action::Abort(_) | Action::Nothing => return records,
        };
        action = session.step(event);
    }
}

#[test]
fn authentication_retries_once_after_failure() {
    let mut session = Session::new(User::default(), 0xAA, Capabilities::all());
    let records = run(&mut session, &[&[0x13], &[0x06], &[0x13], &[0x0A]]);
    assert_eq!(session.state, State::Authenticated);
    assert!(session.is_ready());
    assert_eq!(records.len(), 2);
    assert_eq!(records[0][8], 0);
    assert_eq!(records[1][8], 1);
    assert_eq!(records[0][9], 5);
    assert_eq!(records[0][10], 6);
    assert_eq!(records[1][19], 0xD3);
}

#[test]
fn authentication_succeeds_at_once_for_a_known_user() {
    let mut session = Session::new(User::default(), 0xAA, Capabilities::all());
    let records = run(&mut session, &[&[0x05]]);
    assert_eq!(session.state, State::Authenticated);
    assert_eq!(records.len(), 1);
    assert_eq!(records[0][8], 0);
}

#[test]
fn authentication_times_out() {
    let mut session = Session::new(User::default(), 0xAA, Capabilities::all());
    run(&mut session, &[&[0x13]]);
    assert_eq!(session.state, State::AwaitingConfirmation);
    assert_eq!(
        session.step(Event::Notification(vec![0x09])),
        Action::Abort(Error::Protocol { notification: 0x09 })
    );
    assert_eq!(session.state, State::TimedOut);
    assert!(!session.is_ready());
    assert_eq!(session.device_info, None);
    assert_eq!(session.step(Event::Notification(vec![0x0A])), Action::Nothing);
    assert_eq!(session.state, State::TimedOut);
    assert_eq!(session.step(Event::Connect), Action::Discover);
    assert_eq!(session.state, State::Discovering);
}

#[test]
fn foreign_notifications_are_passed_over() {
    let mut session = Session::new(User::default(), 0xAA, Capabilities::all());
    run(&mut session, &[]);
    assert_eq!(session.state, State::AwaitingConfirmation);
    for payload in [vec![], vec![0x23], vec![0x08], vec![0x0A, 0x00], vec![0xFF]] {
        assert_eq!(session.step(Event::Notification(payload)), Action::Wait);
        assert_eq!(session.state, State::AwaitingConfirmation);
    }
}

#[test]
fn states_follow_one_another() {
    let mut session = Session::new(User::default(), 0xAA, Capabilities::all());
    assert_eq!(session.state, State::Disconnected);
    assert_eq!(session.user_record(false), None);
    assert_eq!(session.step(Event::Discovered(everything())), Action::Nothing);
    assert_eq!(session.step(Event::Connect), Action::Discover);
    assert_eq!(session.state, State::Discovering);
    assert_eq!(session.step(Event::Connect), Action::Nothing);
    assert_eq!(session.step(Event::Discovered(everything())), Action::ReadInfo);
    assert_eq!(session.state, State::Discovering);
    assert_eq!(session.step(Event::Info(info_payload())), Action::WriteUser { auth: false });
    assert_eq!(session.state, State::InfoFetched);
    assert_eq!(session.device_info.unwrap().id, 0x0001_0203);
    assert_eq!(session.step(Event::UserWritten), Action::Listen);
    assert_eq!(session.state, State::UserSent);
    assert_eq!(session.step(Event::Listening), Action::Wait);
    assert_eq!(session.state, State::AwaitingConfirmation);
    assert_eq!(session.step(Event::Notification(vec![0x06])), Action::WriteUser { auth: true });
    assert_eq!(session.state, State::UserSent);
    assert_eq!(session.step(Event::UserWritten), Action::Wait);
    assert_eq!(session.state, State::AwaitingConfirmation);
    assert_eq!(session.step(Event::Notification(vec![0x0A])), Action::Setup);
    assert_eq!(session.state, State::Authenticated);
    assert_eq!(session.step(Event::Connect), Action::Nothing);
    assert_eq!(session.state, State::Authenticated);
}

#[test]
fn device_info_of_the_wrong_length_ends_the_attempt() {
    let mut session = Session::new(User::default(), 0xAA, Capabilities::all());
    session.step(Event::Connect);
    session.step(Event::Discovered(everything()));
    assert_eq!(
        session.step(Event::Info(vec![0; 19])),
        Action::Abort(Error::Length { expected: 20, actual: 19 })
    );
    assert_eq!(session.state, State::Failed);
    assert_eq!(session.device_info, None);
}

#[test]
fn transport_faults_end_the_attempt() {
    let mut session = Session::new(User::default(), 0xAA, Capabilities::all());
    assert_eq!(session.step(Event::Fault(TransportFault::Other)), Action::Nothing);
    session.step(Event::Connect);
    assert_eq!(
        session.step(Event::Fault(TransportFault::ServicesUnresolved)),
        Action::Abort(Error::Bluetooth(TransportFault::ServicesUnresolved))
    );
    assert_eq!(session.state, State::Failed);

    let mut session = Session::new(User::default(), 0xAA, Capabilities::all());
    run(&mut session, &[&[0x05]]);
    assert_eq!(
        session.step(Event::Fault(TransportFault::Other)),
        Action::Abort(Error::Bluetooth(TransportFault::Other))
    );
    assert_eq!(session.state, State::Disconnected);
    assert_eq!(session.device_info, None);
}

#[test]
fn the_end_of_the_notifications_is_a_fault() {
    let mut session = Session::new(User::default(), 0xAA, Capabilities::all());
    run(&mut session, &[&[0x13]]);
    assert_eq!(
        session.step(Event::Ended),
        Action::Abort(Error::Bluetooth(TransportFault::Other))
    );
    assert_eq!(session.state, State::Failed);
    assert_eq!(session.step(Event::Ended), Action::Nothing);
}

#[test]
fn device_info_counts_only_after_a_discovery() {
    let mut session = Session::new(User::default(), 0xAA, Capabilities::all());
    assert_eq!(session.step(Event::Connect), Action::Discover);
    assert_eq!(session.step(Event::Info(info_payload())), Action::Nothing);
    assert_eq!(session.state, State::Discovering);
    assert_eq!(session.device_info, None);
    assert_eq!(session.step(Event::UserWritten), Action::Nothing);
    assert_eq!(session.step(Event::Listening), Action::Nothing);
    assert_eq!(session.step(Event::Notification(vec![0x05])), Action::Nothing);
    assert_eq!(session.state, State::Discovering);
    assert!(!session.is_ready());
    assert!(!session.is_populated());
    assert_eq!(session.step(Event::Discovered(everything())), Action::ReadInfo);
    assert!(session.is_populated());
    assert_eq!(session.step(Event::Info(info_payload())), Action::WriteUser { auth: false });
    assert_eq!(session.state, State::InfoFetched);
}

#[test]
fn characteristics_are_replaced_and_never_merged() {
    let mut session = Session::new(User::default(), 0xAA, Capabilities::none());
    assert_eq!(session.characteristics, vec![]);
    session.step(Event::Connect);
    let mut first = required(&Capabilities::none());
    first.push(STEPS);
    assert_eq!(session.step(Event::Discovered(first.clone())), Action::ReadInfo);
    assert_eq!(session.characteristics, first);
    let second = required(&Capabilities::none());
    assert_eq!(session.step(Event::Discovered(second.clone())), Action::ReadInfo);
    assert_eq!(session.characteristics, second);
    assert!(!session.characteristics.contains(&STEPS));
    session.step(Event::Fault(TransportFault::Other));
    assert_eq!(session.state, State::Failed);
    assert_eq!(session.characteristics, vec![]);
    session.step(Event::Connect);
    assert_eq!(session.characteristics, vec![]);
    assert_eq!(session.step(Event::Info(info_payload())), Action::Nothing);
}

#[test]
fn readiness_needs_the_characteristics() {
    let mut session = Session::new(User::default(), 0xAA, Capabilities::all());
    run(&mut session, &[&[0x05]]);
    assert!(session.is_ready());
    assert_eq!(session.characteristics, everything());
    let forged = Session {
        state: State::Authenticated,
        user: User::default(),
        device_info: None,
        address_last: 0xAA,
        capabilities: Capabilities::all(),
        characteristics: vec![],
    };
    assert!(!forged.is_ready());
}

#[test]
fn signals_are_single_bytes() {
    assert_eq!(signal(&[0x13]), Some(AuthSignal::Awaiting));
    assert_eq!(signal(&[0x0A]), Some(AuthSignal::Confirmed));
    assert_eq!(signal(&[0x06]), Some(AuthSignal::Failed));
    assert_eq!(signal(&[0x05]), Some(AuthSignal::Success));
    assert_eq!(signal(&[0x09]), Some(AuthSignal::Timeout));
    assert_eq!(signal(&[0x08]), None);
    assert_eq!(signal(&[]), None);
    assert_eq!(signal(&[0x13, 0x13]), None);
}

#[test]
fn only_some_transport_faults_are_worth_a_retry() {
    assert!(Error::Bluetooth(TransportFault::NotFound).is_retryable());
    assert!(Error::Bluetooth(TransportFault::ServicesUnresolved).is_retryable());
    assert!(!Error::Bluetooth(TransportFault::Other).is_retryable());
    assert!(!Error::Io(miband::error::IoFault::BrokenPipe).is_retryable());
    assert!(!Error::Protocol { notification: 9 }.is_retryable());
    assert!(!Error::Length { expected: 20, actual: 0 }.is_retryable());
}

#[test]
fn a_session_needs_the_characteristics_of_its_capabilities() {
    assert_eq!(
        required(&Capabilities::none()),
        vec![DEVICE_INFO, USER_INFO, NOTIFICATIONS, CONTROL, DATE_TIME, LE_PARAMS]
    );
    assert_eq!(
        required(&Capabilities::all()),
        vec![
            DEVICE_INFO,
            USER_INFO,
            NOTIFICATIONS,
            CONTROL,
            DATE_TIME,
            LE_PARAMS,
            STEPS,
            BATTERY_INFO,
            ALERT_LEVEL,
            HEART_RATE_MEASUREMENT,
            HEART_RATE_CONTROL_POINT,
        ]
    );
    let without_heartrate = Capabilities { heartrate: false, ..Capabilities::all() };
    assert!(!required(&without_heartrate).contains(&HEART_RATE_MEASUREMENT));
    assert_eq!(DEVICE_INFO, 0x0000ff01_0000_1000_8000_00805f9b34fb);
}

#[test]
fn the_first_missing_characteristic_is_reported() {
    let needed = [DEVICE_INFO, USER_INFO, STEPS];
    assert_eq!(missing(&needed, &[STEPS, USER_INFO, DEVICE_INFO, CONTROL]), None);
    assert_eq!(missing(&needed, &[STEPS, DEVICE_INFO]), Some(USER_INFO));
    assert_eq!(missing(&needed, &[]), Some(DEVICE_INFO));
    assert_eq!(missing(&[], &[]), None);
}

#[test]
fn a_missing_characteristic_ends_the_attempt() {
    let mut session = Session::new(User::default(), 0xAA, Capabilities::all());
    session.step(Event::Connect);
    let mut found = everything();
    found.retain(|uuid| *uuid != HEART_RATE_CONTROL_POINT);
    assert_eq!(
        session.step(Event::Discovered(found.clone())),
        Action::Abort(Error::Bluetooth(TransportFault::NotFound))
    );
    assert_eq!(session.state, State::Failed);

    let without_heartrate = Capabilities { heartrate: false, ..Capabilities::all() };
    let mut session = Session::new(User::default(), 0xAA, without_heartrate);
    session.step(Event::Connect);
    assert_eq!(session.step(Event::Discovered(found)), Action::ReadInfo);
    assert_eq!(session.state, State::Discovering);
}
