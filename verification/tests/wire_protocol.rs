use miband::command::{
    wearlocation_from_bytes, Command, CommandAction, Reader, EXPECTED_KIND, MAGIC,
};
use miband::devices::capabilities::alert::AlertLevel;
use miband::devices::capabilities::battery::BatteryInfo;
use miband::devices::WearLocation;
use miband::error::{Error, IoFault};
use miband::ipc::{find_magic, read_and_command, scan, send, Broadcast, Message, Sent, Transfer};

fn read(bytes: &[u8]) -> (Result<Command, Error>, usize) {
    let mut reader = Reader::new(bytes);
    let command = Command::read(&mut reader);
    (command, reader.position())
}

#[test]
fn message_steps_encodes_little_endian() {
    assert_eq!(
        Message::Steps(500).to_le_bytes(),
        vec![b'M', b'S', b'G', 13, 0xF4, 0x01, 0x00, 0x00]
    );
    assert_eq!(
        Message::Steps(0x0102_0304).to_le_bytes(),
        vec![b'M', b'S', b'G', 13, 4, 3, 2, 1]
    );
}

#[test]
fn message_battery_encodes_one_byte() {
    assert_eq!(Message::Battery(77).to_le_bytes(), vec![b'M', b'S', b'G', 11, 77]);
}

#[test]
fn message_heartrate_encodes_one_byte() {
    assert_eq!(Message::Heartrate(60).to_le_bytes(), vec![b'M', b'S', b'G', 12, 60]);
}

#[test]
fn message_kinds_are_stable() {
    assert_eq!(Message::Battery(0).id(), 11);
    assert_eq!(Message::Heartrate(0).id(), 12);
    assert_eq!(Message::Steps(0).id(), 13);
}

#[test]
fn battery_info_becomes_a_battery_message() {
    let info = BatteryInfo { level: 81, datetime: None, charges: 3, status: None };
    assert_eq!(Message::from(info), Message::Battery(81));
}

#[test]
fn magic_is_cmd() {
    assert_eq!(&MAGIC, b"CMD");
}

#[test]
fn command_steps_set_decodes() {
    assert_eq!(
        read(&[0x50, 0x01, 0x0A, 0x00, 0x00, 0x00]),
        (Ok(Command::Steps((CommandAction::Put, Some(10)))), 6)
    );
    assert_eq!(
        read(&[0x50, 0x01, 0x78, 0x56, 0x34, 0x12, 0xFF]),
        (Ok(Command::Steps((CommandAction::Put, Some(0x1234_5678)))), 6)
    );
}

#[test]
fn command_steps_get_carries_nothing() {
    assert_eq!(
        read(&[0x50, 0x00, 0x0A, 0x00, 0x00, 0x00]),
        (Ok(Command::Steps((CommandAction::Get, None))), 2)
    );
}

#[test]
fn command_battery_decodes() {
    assert_eq!(read(&[0x53, 0x00]), (Ok(Command::Battery), 2));
}

#[test]
fn command_kinds_decode() {
    assert_eq!(read(&[139, 0]), (Ok(Command::Heartrate), 2));
    assert_eq!(read(&[244, 1]), (Ok(Command::Name), 2));
    assert_eq!(read(&[173, 0, 0]), (Ok(Command::HeartrateContinuous(false)), 3));
    assert_eq!(read(&[173, 0, 1]), (Ok(Command::HeartrateContinuous(true)), 3));
    assert_eq!(read(&[173, 1, 7]), (Ok(Command::HeartrateContinuous(true)), 3));
    assert_eq!(read(&[145, 0, 1]), (Ok(Command::Alert(AlertLevel::Mild)), 3));
    assert_eq!(read(&[145, 0, 2]), (Ok(Command::Alert(AlertLevel::High)), 3));
}

#[test]
fn command_unknown_kind_is_an_error() {
    assert_eq!(
        read(&[0xFF, 0x00]),
        (Err(Error::Parse { expected: "80,83,139,145,173,244", position: 0, actual: 0xFF }), 2)
    );
    assert_eq!(
        read(&[0, 1, 2, 3]),
        (Err(Error::Parse { expected: EXPECTED_KIND, position: 0, actual: 0 }), 2)
    );
}

#[test]
fn command_action_must_be_get_or_set() {
    let refused = Err(Error::Parse { expected: "0,1", position: 0, actual: 2 });
    assert_eq!(read(&[0x53, 0x02]), (refused, 2));
    assert_eq!(read(&[0xFF, 0x02]), (refused, 2));
    assert_eq!(CommandAction::try_from(0), Ok(CommandAction::Get));
    assert_eq!(CommandAction::try_from(1), Ok(CommandAction::Put));
    assert_eq!(CommandAction::try_from(2), refused.map(|_: Command| CommandAction::Get));
}

#[test]
fn command_alert_level_must_be_known() {
    assert_eq!(
        read(&[145, 0, 3]),
        (Err(Error::Parse { expected: "1,2", position: 0, actual: 3 }), 3)
    );
    assert_eq!(
        AlertLevel::try_from(0),
        Err(Error::Parse { expected: "1,2", position: 0, actual: 0 })
    );
    assert_eq!(AlertLevel::Mild.payload(), [1]);
    assert_eq!(AlertLevel::High.payload(), [2]);
}

#[test]
fn command_that_ends_early_takes_what_is_left() {
    let eof = Err(Error::Io(IoFault::UnexpectedEof));
    assert_eq!(read(&[]), (eof, 0));
    assert_eq!(read(&[0x53]), (eof, 1));
    assert_eq!(read(&[0x50, 0x01, 0x0A, 0x00, 0x00]), (eof, 5));
    assert_eq!(read(&[173, 0]), (eof, 2));
    assert_eq!(read(&[145, 1]), (eof, 2));
}

#[test]
fn reader_reads_in_order() {
    let bytes = [7, 1, 2, 3, 4, 9];
    let mut reader = Reader::new(&bytes);
    assert_eq!(reader.position(), 0);
    assert_eq!(reader.read_u8(), Ok(7));
    assert_eq!(reader.position(), 1);
    assert_eq!(reader.read_u32_le(), Ok(0x0403_0201));
    assert_eq!(reader.position(), 5);
    assert_eq!(reader.read_u32_le(), Err(Error::Io(IoFault::UnexpectedEof)));
    assert_eq!(reader.position(), 6);
    assert_eq!(reader.read_u8(), Err(Error::Io(IoFault::UnexpectedEof)));
    assert_eq!(reader.position(), 6);
}

#[test]
fn wear_locations() {
    assert_eq!(wearlocation_from_bytes(0), Ok(WearLocation::Left));
    assert_eq!(wearlocation_from_bytes(1), Ok(WearLocation::Right));
    assert_eq!(wearlocation_from_bytes(2), Ok(WearLocation::Neck));
    assert_eq!(wearlocation_from_bytes(3), Ok(WearLocation::Pocket));
    assert_eq!(
        wearlocation_from_bytes(4),
        Err(Error::Parse { expected: "0,1,2,3", position: 0, actual: 4 })
    );
}

#[test]
fn magic_is_found_where_it_first_stands() {
    assert_eq!(find_magic(b"CMD", 0), 0);
    assert_eq!(find_magic(b"xxCMDCMD", 0), 2);
    assert_eq!(find_magic(b"xxCMDCMD", 3), 5);
    assert_eq!(find_magic(b"xxCMDCMD", 6), 8);
    assert_eq!(find_magic(b"CM", 0), 2);
    assert_eq!(find_magic(b"CCMMDD", 0), 6);
    assert_eq!(find_magic(b"", 0), 0);
    assert_eq!(find_magic(b"CMD", 7), 3);
}

#[test]
fn unknown_kind_does_not_affect_later_frames() {
    let buf = [b'C', b'M', b'D', 0xFF, 0x00, b'C', b'M', b'D', 0x53, 0x00];
    assert_eq!(
        scan(&buf),
        vec![
            Err(Error::Parse { expected: EXPECTED_KIND, position: 0, actual: 0xFF }),
            Ok(Command::Battery),
        ]
    );
}

#[test]
fn frames_are_found_anywhere_in_the_buffer() {
    let mut buf = vec![0u8; 32];
    buf[5..11].copy_from_slice(&[b'C', b'M', b'D', 0x50, 0x00, 0x00]);
    buf[20..29].copy_from_slice(&[b'C', b'M', b'D', 0x50, 0x01, 0xF4, 0x01, 0x00, 0x00]);
    assert_eq!(
        scan(&buf),
        vec![
            Ok(Command::Steps((CommandAction::Get, None))),
            Ok(Command::Steps((CommandAction::Put, Some(500)))),
        ]
    );
    assert_eq!(scan(&[0u8; 32]), vec![]);
    assert_eq!(scan(&[]), vec![]);
}

#[test]
fn the_search_goes_on_behind_what_a_frame_took() {
    let inside = [b'C', b'M', b'D', 0x50, 0x01, b'C', b'M', b'D', 0x53, b'C', b'M', b'D', 139, 0];
    assert_eq!(
        scan(&inside),
        vec![
            Ok(Command::Steps((CommandAction::Put, Some(0x5344_4D43)))),
            Ok(Command::Heartrate),
        ]
    );
    let at_the_end = [b'x', b'C', b'M', b'D'];
    assert_eq!(scan(&at_the_end), vec![Err(Error::Io(IoFault::UnexpectedEof))]);
    let refused_action = [b'C', b'M', b'D', 0x53, 0x09, b'C', b'M', b'D', 244, 0];
    assert_eq!(
        scan(&refused_action),
        vec![Err(Error::Parse { expected: "0,1", position: 0, actual: 9 }), Ok(Command::Name)]
    );
}

#[test]
fn a_read_of_nothing_is_a_client_gone() {
    let buf = [b'C', b'M', b'D', 0x53, 0x00];
    assert_eq!(
        read_and_command(Transfer::Moved(0), &buf),
        Err(Error::Io(IoFault::BrokenPipe))
    );
    assert_eq!(read_and_command(Transfer::Moved(5), &buf), Ok(vec![Ok(Command::Battery)]));
    assert_eq!(read_and_command(Transfer::Failed(IoFault::WouldBlock), &buf), Ok(vec![]));
    assert_eq!(
        read_and_command(Transfer::Failed(IoFault::Other), &buf),
        Err(Error::Io(IoFault::Other))
    );
    assert_eq!(
        read_and_command(Transfer::Failed(IoFault::BrokenPipe), &buf),
        Err(Error::Io(IoFault::BrokenPipe))
    );
}

#[test]
fn only_the_bytes_just_read_are_scanned() {
    let mut buf = [0u8; 32];
    buf[4..9].copy_from_slice(&[b'C', b'M', b'D', 0x53, 0x00]);
    assert_eq!(read_and_command(Transfer::Moved(9), &buf), Ok(vec![Ok(Command::Battery)]));
    buf[0] = b'x';
    assert_eq!(read_and_command(Transfer::Moved(1), &buf), Ok(vec![]));
    assert_eq!(read_and_command(Transfer::Moved(4), &buf), Ok(vec![]));
    assert_eq!(
        read_and_command(Transfer::Moved(7), &buf),
        Ok(vec![Err(Error::Io(IoFault::UnexpectedEof))])
    );
    assert_eq!(
        read_and_command(Transfer::Moved(8), &buf),
        Ok(vec![Err(Error::Io(IoFault::UnexpectedEof))])
    );
    assert_eq!(read_and_command(Transfer::Moved(32), &buf), Ok(vec![Ok(Command::Battery)]));
    assert_eq!(read_and_command(Transfer::Moved(33), &buf), Ok(vec![Ok(Command::Battery)]));
}

#[test]
fn a_frame_is_delivered_once() {
    let mut buf = [0u8; 32];
    let first = [b'C', b'M', b'D', 0x50, 0x01, 0x0A, 0x00, 0x00, 0x00];
    buf[..first.len()].copy_from_slice(&first);
    assert_eq!(
        read_and_command(Transfer::Moved(first.len()), &buf),
        Ok(vec![Ok(Command::Steps((CommandAction::Put, Some(10))))])
    );
    let second = [b'C', b'M', b'D', 244, 0];
    buf[..second.len()].copy_from_slice(&second);
    assert_eq!(read_and_command(Transfer::Moved(second.len()), &buf), Ok(vec![Ok(Command::Name)]));
}

#[test]
fn a_write_of_nothing_is_a_client_gone() {
    assert_eq!(send(Transfer::Moved(0), 5), Err(Error::Io(IoFault::BrokenPipe)));
    assert_eq!(send(Transfer::Moved(5), 5), Ok(Sent::Whole));
    assert_eq!(send(Transfer::Moved(3), 5), Ok(Sent::Partly));
    assert_eq!(send(Transfer::Failed(IoFault::WouldBlock), 5), Ok(Sent::Skipped));
    assert_eq!(send(Transfer::Failed(IoFault::Other), 5), Err(Error::Io(IoFault::Other)));
}

#[test]
fn a_slow_client_sees_the_latest_message_only() {
    let mut slot = Broadcast::new(Message::Steps(0));
    let mut slow = slot.subscribe();
    let mut fast = slot.subscribe();
    assert_eq!(slot.poll(&mut slow), None);
    slot.publish(Message::Battery(10));
    assert_eq!(slot.poll(&mut fast), Some(Message::Battery(10)));
    slot.publish(Message::Battery(20));
    assert_eq!(slot.poll(&mut fast), Some(Message::Battery(20)));
    assert_eq!(slot.poll(&mut slow), Some(Message::Battery(20)));
    assert_eq!(slot.poll(&mut slow), None);
    assert_eq!(slot.poll(&mut fast), None);
}

#[test]
fn the_version_of_the_slot_starts_again_from_zero() {
    let mut slot = Broadcast { latest: Message::Steps(1), version: u64::MAX };
    let mut reader = slot.subscribe();
    slot.publish(Message::Steps(2));
    assert_eq!(slot.version, 0);
    assert_eq!(slot.poll(&mut reader), Some(Message::Steps(2)));
    assert_eq!(reader.seen, 0);
}
