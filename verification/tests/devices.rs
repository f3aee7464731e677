use miband::appraiser::{appraise, wanted, Known};
use miband::command::{Command, CommandAction};
use miband::devices::bluetooth::Capabilities;
use miband::devices::capabilities::alarm::{AlarmFrequency, AlarmSlot};
use miband::devices::capabilities::alert::AlertLevel;
use miband::devices::capabilities::heartrate::{
    continuous_payload, heartrate_from_notification, sleep_payload, CONTINUOUS, MANUAL, SLEEP,
    SLEEP_COMMIT,
};
use miband::devices::generic::connect_plan;
use miband::devices::miband::{
    control, control_payload, device_name, factory_reset, reboot, set_alarm, set_datetime,
    set_step_goal, set_steps, set_wear_location, ADDRESS,
};
use miband::devices::{DateTime, NotSupportedErr, WearLocation};
use miband::error::Error;
use miband::icons::battery_icon;
use miband::orchestrator::{messengers, request, Request, Telemetry};

#[test]
fn alarm_days_are_bits() {
    assert_eq!(AlarmFrequency::Once.as_bits(), 0);
    assert_eq!(AlarmFrequency::Monday.as_bits(), 1);
    assert_eq!(AlarmFrequency::Tuesday.as_bits(), 2);
    assert_eq!(AlarmFrequency::Wednesday.as_bits(), 4);
    assert_eq!(AlarmFrequency::Thursday.as_bits(), 8);
    assert_eq!(AlarmFrequency::Friday.as_bits(), 16);
    assert_eq!(AlarmFrequency::Saturday.as_bits(), 32);
    assert_eq!(AlarmFrequency::Sunday.as_bits(), 64);
    assert_eq!(AlarmFrequency::Workweek.as_bits(), 31);
    assert_eq!(AlarmFrequency::Weekends.as_bits(), 96);
    assert_eq!(AlarmFrequency::Everyday.as_bits(), 127);
}

#[test]
fn alarm_combinations_are_their_days() {
    let workweek = AlarmFrequency::Monday.as_bits()
        | AlarmFrequency::Tuesday.as_bits()
        | AlarmFrequency::Wednesday.as_bits()
        | AlarmFrequency::Thursday.as_bits()
        | AlarmFrequency::Friday.as_bits();
    assert_eq!(AlarmFrequency::Workweek.as_bits(), workweek);
    let weekend = AlarmFrequency::Saturday.as_bits() | AlarmFrequency::Sunday.as_bits();
    assert_eq!(AlarmFrequency::Weekends.as_bits(), weekend);
    assert_eq!(AlarmFrequency::Everyday.as_bits(), workweek | weekend);
}

#[test]
fn alarm_command() {
    let slot = AlarmSlot {
        id: 2,
        enabled: true,
        at: DateTime::new(2026, 10, 28, 8, 30, 0).unwrap(),
        smart: false,
        frequency: AlarmFrequency::Everyday,
    };
    assert_eq!(slot.to_bytes(), [2, 1, 26, 10, 28, 8, 30, 0, 0, 127]);
    assert_eq!(set_alarm(&slot), vec![0x4, 2, 1, 26, 10, 28, 8, 30, 0, 0, 127]);
    let smart = AlarmSlot { enabled: false, smart: true, frequency: AlarmFrequency::Weekends, ..slot };
    assert_eq!(set_alarm(&smart), vec![0x4, 2, 0, 26, 10, 28, 8, 30, 0, 1, 96]);
}

#[test]
fn control_commands() {
    assert_eq!(factory_reset(), vec![0x9]);
    assert_eq!(reboot(), vec![0xC]);
    assert_eq!(control(0xB), vec![0xB]);
    assert_eq!(control_payload(0x6, [1, 2, 3]), vec![0x6, 1, 2, 3]);
    assert_eq!(control_payload(0x6, []), vec![0x6]);
    assert_eq!(set_steps(500), vec![0x14, 0xF4, 0x01, 0, 0]);
    assert_eq!(set_steps(0x0102_0304), vec![0x14, 4, 3, 2, 1]);
    assert_eq!(set_step_goal(10000), vec![0x5, 0, 0x10, 0x27]);
}

#[test]
fn wear_location_command() {
    assert_eq!(set_wear_location(WearLocation::Left), Ok(vec![0xF, 0]));
    assert_eq!(set_wear_location(WearLocation::Right), Ok(vec![0xF, 1]));
    assert_eq!(set_wear_location(WearLocation::Neck), Ok(vec![0xF, 2]));
    assert_eq!(set_wear_location(WearLocation::Pocket), Err(NotSupportedErr));
}

#[test]
fn date_and_time_command() {
    let dt = DateTime::new(2026, 10, 28, 1, 2, 3).unwrap();
    assert_eq!(set_datetime(&dt), [26, 10, 28, 1, 2, 3, 255, 255, 255, 255, 255, 255]);
}

#[test]
fn device_name_is_read_behind_its_prefix() {
    assert_eq!(device_name(b"\x01\x02\x03MI1S"), Ok("MI1S".to_string()));
    assert_eq!(device_name(&[0, 0, 0]), Ok(String::new()));
    assert_eq!(device_name(&[0, 0, 0, b'a', 0xFF, b'b']), Ok("a\u{FFFD}b".to_string()));
    assert_eq!(device_name(&[0xC3, 0xA9, 0, 0xC3, 0xA9]), Ok("\u{e9}".to_string()));
    assert_eq!(device_name(&[1, 2]), Err(Error::Length { expected: 3, actual: 2 }));
    assert_eq!(device_name(&[]), Err(Error::Length { expected: 3, actual: 0 }));
}

#[test]
fn heart_rate_commands() {
    assert_eq!(MANUAL, [0x15, 0x2, 0x1]);
    assert_eq!(CONTINUOUS, [0x15, 0x1, 0x0]);
    assert_eq!(SLEEP, [0x15, 0x0, 0x0]);
    assert_eq!(SLEEP_COMMIT, [0x14, 0x0]);
    assert_eq!(continuous_payload(false), CONTINUOUS);
    assert_eq!(continuous_payload(true), [0x15, 0x1, 0x1]);
    assert_eq!(sleep_payload(false), SLEEP);
    assert_eq!(sleep_payload(true), [0x15, 0x0, 0x1]);
}

#[test]
fn heart_rate_is_the_second_byte() {
    assert_eq!(heartrate_from_notification(&[6, 72]), Some(72));
    assert_eq!(heartrate_from_notification(&[6, 72, 0]), Some(72));
    assert_eq!(heartrate_from_notification(&[6]), None);
    assert_eq!(heartrate_from_notification(&[]), None);
}

#[test]
fn alert_levels() {
    assert_eq!(AlertLevel::try_from(1), Ok(AlertLevel::Mild));
    assert_eq!(AlertLevel::try_from(2), Ok(AlertLevel::High));
}

#[test]
fn battery_icons() {
    assert_eq!(battery_icon(100), '\u{f240}');
    assert_eq!(battery_icon(90), '\u{f240}');
    assert_eq!(battery_icon(89), '\u{f241}');
    assert_eq!(battery_icon(65), '\u{f241}');
    assert_eq!(battery_icon(64), '\u{f242}');
    assert_eq!(battery_icon(35), '\u{f242}');
    assert_eq!(battery_icon(34), '\u{f243}');
    assert_eq!(battery_icon(5), '\u{f243}');
    assert_eq!(battery_icon(4), '\u{f244}');
    assert_eq!(battery_icon(0), '\u{f244}');
    assert_eq!(battery_icon(255), '\u{f240}');
}

#[test]
fn known_devices() {
    assert_eq!(appraise(&ADDRESS), Some(Known::MiBandOneS));
    assert_eq!(appraise(&[0xC8, 0x0F, 0x10, 0x80, 0xD0, 0xAB]), None);
    assert_eq!(appraise(&[0; 6]), None);
    assert_eq!(Known::MiBandOneS.capabilities(), Capabilities::all());
    assert!(wanted(None, &[1, 2, 3, 4, 5, 6]));
    assert!(wanted(Some(ADDRESS), &ADDRESS));
    assert!(!wanted(Some(ADDRESS), &[0xC8, 0x0F, 0x10, 0x80, 0xD0, 0xAB]));
}

#[test]
fn generic_devices_connect_once() {
    let plan = connect_plan(false, 0);
    assert!(plan.connect && plan.discover);
    let plan = connect_plan(true, 0);
    assert!(!plan.connect && plan.discover);
    let plan = connect_plan(true, 12);
    assert!(!plan.connect && !plan.discover);
}

#[test]
fn streams_follow_capabilities() {
    assert_eq!(
        messengers(&Capabilities::all()),
        vec![Telemetry::Battery, Telemetry::Steps, Telemetry::Heartrate]
    );
    assert_eq!(messengers(&Capabilities::none()), vec![]);
    let without_heartrate = Capabilities { heartrate: false, ..Capabilities::all() };
    assert_eq!(messengers(&without_heartrate), vec![Telemetry::Battery, Telemetry::Steps]);
    let alert_only = Capabilities { alert: true, ..Capabilities::none() };
    assert_eq!(messengers(&alert_only), vec![]);
}

#[test]
fn a_missing_capability_is_no_error() {
    let without_heartrate = Capabilities { heartrate: false, ..Capabilities::all() };
    assert_eq!(request(&Command::Heartrate, &without_heartrate), Request::Unsupported);
    assert_eq!(
        request(&Command::HeartrateContinuous(true), &without_heartrate),
        Request::Unsupported
    );
    assert_eq!(request(&Command::Battery, &without_heartrate), Request::ReadBattery);
    assert!(!messengers(&without_heartrate).contains(&Telemetry::Heartrate));
}

#[test]
fn commands_become_requests() {
    let all = Capabilities::all();
    let none = Capabilities::none();
    assert_eq!(request(&Command::Steps((CommandAction::Get, None)), &all), Request::ReadSteps);
    assert_eq!(request(&Command::Steps((CommandAction::Get, Some(3))), &all), Request::ReadSteps);
    assert_eq!(
        request(&Command::Steps((CommandAction::Put, Some(10))), &all),
        Request::SetSteps(10)
    );
    assert_eq!(
        request(&Command::Steps((CommandAction::Put, None)), &all),
        Request::NotImplemented
    );
    assert_eq!(request(&Command::Steps((CommandAction::Put, Some(10))), &none), Request::Unsupported);
    assert_eq!(request(&Command::Battery, &all), Request::ReadBattery);
    assert_eq!(request(&Command::Battery, &none), Request::Unsupported);
    assert_eq!(request(&Command::Heartrate, &all), Request::MeasureHeartrate);
    assert_eq!(
        request(&Command::HeartrateContinuous(false), &all),
        Request::HeartrateContinuous(false)
    );
    assert_eq!(request(&Command::Name, &all), Request::ReadName);
    assert_eq!(request(&Command::Name, &none), Request::ReadName);
    assert_eq!(request(&Command::HeartrateSleep(true), &all), Request::NotImplemented);
    assert_eq!(request(&Command::Alert(AlertLevel::High), &all), Request::NotImplemented);
    assert_eq!(request(&Command::Alarm(CommandAction::Get), &all), Request::NotImplemented);
    assert_eq!(
        request(&Command::WearLocation((CommandAction::Put, Some(WearLocation::Left))), &all),
        Request::NotImplemented
    );
    assert_eq!(
        request(&Command::DateTime(DateTime::new(2026, 1, 1, 0, 0, 0).unwrap()), &all),
        Request::NotImplemented
    );
}
