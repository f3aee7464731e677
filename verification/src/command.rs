//! The commands that a client of the relay may send, and how a frame of
//! bytes is read as one.

use vstd::prelude::*;
use vstd::std_specs::convert::TryFromSpecImpl;
use byteorder::{LittleEndian, ReadBytesExt};
use crate::devices::capabilities::alert::AlertLevel;
use crate::devices::{DateTime, WearLocation};
use crate::error::{Error, IoFault};
use crate::wire::spec_u32_le;

verus! {

/// What every command frame begins with.
pub const MAGIC: [u8; 3] = [0x43, 0x4D, 0x44];

/// What a client asks of the device.
#[derive(Debug, Clone, Copy, PartialEq, Eq)]
pub enum Command {
    Alarm(CommandAction),
    Alert(AlertLevel),
    Battery,
    DateTime(DateTime),
    Heartrate,
    HeartrateContinuous(bool),
    HeartrateSleep(bool),
    Name,
    Steps((CommandAction, Option<u32>)),
    WearLocation((CommandAction, Option<WearLocation>)),
}

/// Whether a command reads a value or writes one.
#[derive(Debug, Clone, Copy, PartialEq, Eq)]
pub enum CommandAction {
    Get,
    Put,
}

/// The kinds of command that a frame may name, for diagnostics.
pub const EXPECTED_KIND: &'static str = "80,83,139,145,173,244";

/// The kind byte of a steps command.
pub const KIND_STEPS: u8 = 80;

/// The kind byte of a battery command.
pub const KIND_BATTERY: u8 = 83;

/// The kind byte of a command that asks for one heart-rate measurement.
pub const KIND_HEARTRATE: u8 = 139;

/// The kind byte of an alert command.
pub const KIND_ALERT: u8 = 145;

/// The kind byte of a command that switches the continuous measurement.
pub const KIND_HEARTRATE_CONTINUOUS: u8 = 173;

/// The kind byte of a command that asks for the device's name.
pub const KIND_NAME: u8 = 244;

impl CommandAction {
    /// The action that a byte stands for, if it stands for one.
    pub open spec fn spec_from_byte(value: u8) -> Result<CommandAction, Error> {
        if value == 0 {
            Ok(CommandAction::Get)
        } else if value == 1 {
            Ok(CommandAction::Put)
        } else {
            Err(Error::Parse { expected: "0,1", position: 0, actual: value })
        }
    }
}

impl TryFrom<u8> for CommandAction {
    type Error = Error;

    fn try_from(value: u8) -> (r: Result<CommandAction, Error>) {
        match value {
            0 => Ok(CommandAction::Get),
            1 => Ok(CommandAction::Put),
            _ => Err(Error::Parse { expected: "0,1", position: 0, actual: value }),
        }
    }
}

impl TryFromSpecImpl<u8> for CommandAction {
    open spec fn obeys_try_from_spec() -> bool {
        true
    }

    open spec fn try_from_spec(value: u8) -> Result<CommandAction, Error> {
        CommandAction::spec_from_byte(value)
    }
}

/// The place that a byte stands for, if it stands for one.
pub open spec fn spec_wearlocation_from_bytes(value: u8) -> Result<WearLocation, Error> {
    if value == 0 {
        Ok(WearLocation::Left)
    } else if value == 1 {
        Ok(WearLocation::Right)
    } else if value == 2 {
        Ok(WearLocation::Neck)
    } else if value == 3 {
        Ok(WearLocation::Pocket)
    } else {
        Err(Error::Parse { expected: "0,1,2,3", position: 0, actual: value })
    }
}

/// Reads a byte as the place where the band is worn.
pub fn wearlocation_from_bytes(value: u8) -> (r: Result<WearLocation, Error>)
    ensures
        r == spec_wearlocation_from_bytes(value),
{
    match value {
        0 => Ok(WearLocation::Left),
        1 => Ok(WearLocation::Right),
        2 => Ok(WearLocation::Neck),
        3 => Ok(WearLocation::Pocket),
        _ => Err(Error::Parse { expected: "0,1,2,3", position: 0, actual: value }),
    }
}

#[verifier::external_type_specification]
#[verifier::external_body]
pub struct ExIoError(std::io::Error);

/// Calls `byteorder::ReadBytesExt::read_u8` with the slice as the reader.
/// The contract says what the method and the reader document: the first
/// byte where there is one, an error where the slice is empty.
#[verifier::external_body]
fn slice_read_u8(bytes: &[u8]) -> (r: Result<u8, std::io::Error>)
    ensures
        bytes@.len() >= 1 ==> r is Ok && r->Ok_0 == bytes@[0],
        bytes@.len() < 1 ==> r is Err,
{
    let mut reader = bytes;
    reader.read_u8()
}

/// Calls `byteorder::ReadBytesExt::read_u32` for `LittleEndian` with the
/// slice as the reader. The contract says what the method and the reader
/// document: the number in the first four bytes, least significant byte
/// first, and an error where the slice holds fewer than four.
#[verifier::external_body]
fn slice_read_u32_le(bytes: &[u8]) -> (r: Result<u32, std::io::Error>)
    ensures
        bytes@.len() >= 4 ==> r is Ok && r->Ok_0 == spec_u32_le(bytes@[0], bytes@[1], bytes@[2], bytes@[3]),
        bytes@.len() < 4 ==> r is Err,
{
    let mut reader = bytes;
    reader.read_u32::<LittleEndian>()
}

/// A place in a buffer from which values are read one after the other.
pub struct Reader<'a> {
    bytes: &'a [u8],
    position: usize,
}

impl<'a> Reader<'a> {
    #[verifier::type_invariant]
    spec fn within(&self) -> bool {
        self.position <= self.bytes@.len()
    }

    /// The whole buffer.
    pub closed spec fn buffer(&self) -> Seq<u8> {
        self.bytes@
    }

    /// How many bytes have been read.
    pub closed spec fn spec_position(&self) -> usize {
        self.position
    }

    /// The bytes that have not been read yet.
    pub open spec fn remaining(&self) -> Seq<u8> {
        self.buffer().subrange(self.spec_position() as int, self.buffer().len() as int)
    }

    /// A reader at the start of the buffer.
    pub fn new(bytes: &'a [u8]) -> (reader: Reader<'a>)
        ensures
            reader.buffer() == bytes@,
            reader.spec_position() == 0,
    {
        Reader { bytes, position: 0 }
    }

    /// How many bytes have been read.
    #[verifier::when_used_as_spec(spec_position)]
    pub fn position(&self) -> (p: usize)
        ensures
            p == self.spec_position(),
            p <= self.buffer().len(),
    {
        proof {
            use_type_invariant(self);
        }
        self.position
    }

    /// Reads one byte. At the end of the buffer this fails and reads
    /// nothing.
    pub fn read_u8(&mut self) -> (r: Result<u8, Error>)
        ensures
            final(self).buffer() == old(self).buffer(),
            old(self).spec_position() <= old(self).buffer().len(),
            old(self).remaining().len() >= 1 ==> r == Ok::<u8, Error>(old(self).remaining()[0])
                && final(self).spec_position() == old(self).spec_position() + 1,
            old(self).remaining().len() < 1 ==> r == Err::<u8, Error>(
                Error::Io(IoFault::UnexpectedEof),
            ) && final(self).spec_position() == old(self).buffer().len(),
    {
        proof {
            use_type_invariant(&*self);
        }
        let rest = vstd::slice::slice_subrange(self.bytes, self.position, self.bytes.len());
        match slice_read_u8(rest) {
            Ok(value) => {
                self.position = self.position + 1;
                Ok(value)
            },
            Err(_) => {
                self.position = self.bytes.len();
                Err(Error::Io(IoFault::UnexpectedEof))
            },
        }
    }

    /// Reads a number of four bytes, least significant byte first. Where
    /// fewer than four bytes are left this fails and passes over them.
    pub fn read_u32_le(&mut self) -> (r: Result<u32, Error>)
        ensures
            final(self).buffer() == old(self).buffer(),
            old(self).spec_position() <= old(self).buffer().len(),
            old(self).remaining().len() >= 4 ==> r == Ok::<u32, Error>(
                spec_u32_le(
                    old(self).remaining()[0],
                    old(self).remaining()[1],
                    old(self).remaining()[2],
                    old(self).remaining()[3],
                ),
            ) && final(self).spec_position() == old(self).spec_position() + 4,
            old(self).remaining().len() < 4 ==> r == Err::<u32, Error>(
                Error::Io(IoFault::UnexpectedEof),
            ) && final(self).spec_position() == old(self).buffer().len(),
    {
        proof {
            use_type_invariant(&*self);
        }
        let rest = vstd::slice::slice_subrange(self.bytes, self.position, self.bytes.len());
        match slice_read_u32_le(rest) {
            Ok(value) => {
                self.position = self.position + 4;
                Ok(value)
            },
            Err(_) => {
                self.position = self.bytes.len();
                Err(Error::Io(IoFault::UnexpectedEof))
            },
        }
    }
}

/// What reading one command from `s`, the bytes after the magic, gives, and
/// how many bytes it takes.
///
/// The kind comes first, then the action, which must be 0 or 1 whatever
/// the kind. Setting the steps takes four more bytes, switching the
/// continuous measurement and raising an alert one more. A kind that
/// names no command is a parse error that carries the kind. A frame that
/// ends too early takes all there is.
pub open spec fn spec_read(s: Seq<u8>) -> (Result<Command, Error>, nat) {
    if s.len() < 2 {
        (Err(Error::Io(IoFault::UnexpectedEof)), s.len())
    } else {
        match CommandAction::spec_from_byte(s[1]) {
            Err(e) => (Err(e), 2),
            Ok(action) => if s[0] == KIND_STEPS {
                match action {
                    CommandAction::Get => (Ok(Command::Steps((action, None))), 2),
                    CommandAction::Put => if s.len() >= 6 {
                        (Ok(Command::Steps((action, Some(spec_u32_le(s[2], s[3], s[4], s[5]))))), 6)
                    } else {
                        (Err(Error::Io(IoFault::UnexpectedEof)), s.len())
                    },
                }
            } else if s[0] == KIND_BATTERY {
                (Ok(Command::Battery), 2)
            } else if s[0] == KIND_HEARTRATE {
                (Ok(Command::Heartrate), 2)
            } else if s[0] == KIND_HEARTRATE_CONTINUOUS {
                if s.len() >= 3 {
                    (Ok(Command::HeartrateContinuous(s[2] != 0)), 3)
                } else {
                    (Err(Error::Io(IoFault::UnexpectedEof)), s.len())
                }
            } else if s[0] == KIND_ALERT {
                if s.len() >= 3 {
                    match AlertLevel::spec_from_byte(s[2]) {
                        Ok(level) => (Ok(Command::Alert(level)), 3),
                        Err(e) => (Err(e), 3),
                    }
                } else {
                    (Err(Error::Io(IoFault::UnexpectedEof)), s.len())
                }
            } else if s[0] == KIND_NAME {
                (Ok(Command::Name), 2)
            } else {
                (Err(Error::Parse { expected: EXPECTED_KIND, position: 0, actual: s[0] }), 2)
            },
        }
    }
}

/// A frame takes no more bytes than there are, and never more than six.
pub proof fn lemma_read_takes_what_is_there(s: Seq<u8>)
    ensures
        spec_read(s).1 <= s.len(),
        spec_read(s).1 <= 6,
        spec_read(s).0 is Ok ==> spec_read(s).1 >= 2,
{
}

impl Command {
    /// Reads one command from where the reader stands, which is behind the
    /// magic of a frame.
    pub fn read(r: &mut Reader) -> (command: Result<Command, Error>)
        ensures
            final(r).buffer() == old(r).buffer(),
            command == spec_read(old(r).remaining()).0,
            final(r).spec_position() == old(r).spec_position() + spec_read(old(r).remaining()).1,
            final(r).spec_position() <= final(r).buffer().len(),
    {
        let ghost s = r.remaining();
        let kind = match r.read_u8() {
            Ok(kind) => kind,
            Err(e) => {
                return Err(e);
            },
        };
        assert(r.remaining() =~= s.subrange(1, s.len() as int));
        let action = match r.read_u8() {
            Ok(byte) => match CommandAction::try_from(byte) {
                Ok(action) => action,
                Err(e) => {
                    return Err(e);
                },
            },
            Err(e) => {
                return Err(e);
            },
        };
        assert(r.remaining() =~= s.subrange(2, s.len() as int));
        match kind {
            80 => {
                let steps = match action {
                    CommandAction::Get => None,
                    CommandAction::Put => match r.read_u32_le() {
                        Ok(steps) => Some(steps),
                        Err(e) => {
                            return Err(e);
                        },
                    },
                };
                Ok(Command::Steps((action, steps)))
            },
            83 => Ok(Command::Battery),
            139 => Ok(Command::Heartrate),
            173 => match r.read_u8() {
                Ok(n) => Ok(Command::HeartrateContinuous(n != 0)),
                Err(e) => Err(e),
            },
            145 => match r.read_u8() {
                Ok(n) => match AlertLevel::try_from(n) {
                    Ok(level) => Ok(Command::Alert(level)),
                    Err(e) => Err(e),
                },
                Err(e) => Err(e),
            },
            244 => Ok(Command::Name),
            _ => Err(Error::Parse { expected: EXPECTED_KIND, position: 0, actual: kind }),
        }
    }
}

} // verus!
