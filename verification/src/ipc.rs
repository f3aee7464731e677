//! The relay's side of the local socket: the messages that go out to the
//! clients, the command frames that come in, and the slot through which
//! every client sees the latest message.

use vstd::prelude::*;
use vstd::std_specs::convert::FromSpecImpl;
use crate::command::{spec_read, Command, Reader, MAGIC};
use crate::devices::capabilities::battery::BatteryInfo;
use crate::error::{Error, IoFault};
use crate::command::{CommandAction, EXPECTED_KIND, KIND_ALERT, KIND_BATTERY, KIND_HEARTRATE, KIND_HEARTRATE_CONTINUOUS, KIND_NAME, KIND_STEPS};
use crate::wire::{lemma_u32_le_round_trip, spec_u32_to_le, u32_to_le};

verus! {

/// One piece of telemetry on its way to the clients.
#[derive(Debug, Clone, Copy, PartialEq, Eq)]
pub enum Message {
    /// The charge of the battery in percent.
    Battery(u8),
    /// The heart rate in beats per minute.
    Heartrate(u8),
    /// The number of steps.
    Steps(u32),
}

impl From<BatteryInfo> for Message {
    fn from(info: BatteryInfo) -> (message: Message) {
        Message::Battery(info.level)
    }
}

impl FromSpecImpl<BatteryInfo> for Message {
    open spec fn obeys_from_spec() -> bool {
        true
    }

    open spec fn from_spec(info: BatteryInfo) -> Message {
        Message::Battery(info.level)
    }
}

impl Message {
    /// The number that names the kind of the message on the wire.
    pub open spec fn spec_id(&self) -> u8 {
        match self {
            Message::Battery(_) => 11u8,
            Message::Heartrate(_) => 12u8,
            Message::Steps(_) => 13u8,
        }
    }

    /// What the message carries, as it stands on the wire: one byte, or
    /// the four bytes of the steps, least significant first.
    pub open spec fn spec_payload(&self) -> Seq<u8> {
        match self {
            Message::Battery(v) => seq![*v],
            Message::Heartrate(v) => seq![*v],
            Message::Steps(v) => spec_u32_to_le(*v),
        }
    }

    /// The frame of the message: the letters `MSG`, the kind, the payload.
    pub open spec fn spec_to_le_bytes(&self) -> Seq<u8> {
        seq![0x4Du8, 0x53u8, 0x47u8, self.spec_id()] + self.spec_payload()
    }

    /// The kind of the message as it stands on the wire.
    #[verifier::when_used_as_spec(spec_id)]
    pub fn id(&self) -> (id: u8)
        ensures
            id == self.spec_id(),
    {
        match self {
            Message::Battery(_) => 11,
            Message::Heartrate(_) => 12,
            Message::Steps(_) => 13,
        }
    }

    /// Lays the message out as a frame for the clients.
    pub fn to_le_bytes(self) -> (frame: Vec<u8>)
        ensures
            frame@ == self.spec_to_le_bytes(),
    {
        let mut frame: Vec<u8> = Vec::new();
        frame.push(0x4D);
        frame.push(0x53);
        frame.push(0x47);
        frame.push(self.id());
        match self {
            Message::Battery(v) => {
                frame.push(v);
            },
            Message::Heartrate(v) => {
                frame.push(v);
            },
            Message::Steps(v) => {
                let count = u32_to_le(v);
                frame.push(count[0]);
                frame.push(count[1]);
                frame.push(count[2]);
                frame.push(count[3]);
            },
        }
        assert(frame@ =~= self.spec_to_le_bytes());
        frame
    }
}

/// The frame of a message is as long as its kind says: the letters, the
/// kind, and one byte for a battery level or a heart rate, four for steps.
pub proof fn lemma_frame_length(message: Message)
    ensures
        message.spec_to_le_bytes()[3] == message.spec_id(),
        message is Steps ==> message.spec_to_le_bytes().len() == 8,
        !(message is Steps) ==> message.spec_to_le_bytes().len() == 5,
{
}

/// No two messages have the same frame: a client can tell from a frame
/// which message was sent.
pub proof fn lemma_frames_differ(a: Message, b: Message)
    requires
        a.spec_to_le_bytes() == b.spec_to_le_bytes(),
    ensures
        a == b,
{
    let fa = a.spec_to_le_bytes();
    let fb = b.spec_to_le_bytes();
    assert(fa[3] == fb[3]);
    assert(fa[4] == fb[4]);
    match (a, b) {
        (Message::Steps(x), Message::Steps(y)) => {
            assert(fa[5] == fb[5]);
            assert(fa[6] == fb[6]);
            assert(fa[7] == fb[7]);
            lemma_u32_le_round_trip(x);
            lemma_u32_le_round_trip(y);
        },
        _ => {},
    }
}

/// Whether the magic of a command frame stands at `i` in `s`.
pub open spec fn magic_at(s: Seq<u8>, i: int) -> bool {
    &&& 0 <= i
    &&& i + 3 <= s.len()
    &&& s[i] == MAGIC[0]
    &&& s[i + 1] == MAGIC[1]
    &&& s[i + 2] == MAGIC[2]
}

/// The first place at or after `from` where the magic stands in `s`, or
/// the length of `s` where it stands nowhere from there on.
pub open spec fn spec_find_magic(s: Seq<u8>, from: int) -> int
    decreases s.len() - from,
{
    if from < 0 || from + 3 > s.len() {
        s.len() as int
    } else if magic_at(s, from) {
        from
    } else {
        spec_find_magic(s, from + 1)
    }
}

/// The search finds the magic where it first stands, and nothing before.
pub proof fn lemma_find_magic(s: Seq<u8>, from: int)
    requires
        0 <= from <= s.len(),
    ensures
        from <= spec_find_magic(s, from) <= s.len(),
        spec_find_magic(s, from) < s.len() ==> magic_at(s, spec_find_magic(s, from)),
        forall|j: int| from <= j < spec_find_magic(s, from) ==> !magic_at(s, j),
    decreases s.len() - from,
{
    if from + 3 > s.len() {
    } else if magic_at(s, from) {
    } else {
        lemma_find_magic(s, from + 1);
    }
}

/// Looks for the magic of a command frame at or after `from`, and gives
/// the length of the buffer where there is none.
pub fn find_magic(buf: &[u8], from: usize) -> (at: usize)
    ensures
        at == spec_find_magic(buf@, from as int),
        at <= buf@.len(),
        from <= buf@.len() ==> from <= at,
{
    if from > buf.len() {
        return buf.len();
    }
    let mut i: usize = from;
    while buf.len() - i >= 3
        invariant
            from <= i <= buf@.len(),
            spec_find_magic(buf@, from as int) == spec_find_magic(buf@, i as int),
        decreases buf@.len() - i,
    {
        if buf[i] == MAGIC[0] && buf[i + 1] == MAGIC[1] && buf[i + 2] == MAGIC[2] {
            return i;
        }
        i = i + 1;
    }
    buf.len()
}

/// What a buffer holds from `from` on, frame by frame: for each magic, in
/// order, what reading a command behind it gives. The search goes on
/// behind what the command took, so that a frame that cannot be read
/// costs its own bytes and no others.
pub open spec fn spec_scan(s: Seq<u8>, from: int) -> Seq<Result<Command, Error>>
    decreases s.len() - from,
{
    if from < 0 || from > s.len() {
        seq![]
    } else {
        let at = spec_find_magic(s, from);
        if at + 3 <= s.len() && at >= from {
            let (frame, taken) = spec_read(s.subrange(at + 3, s.len() as int));
            seq![frame] + spec_scan(s, at + 3 + taken)
        } else {
            seq![]
        }
    }
}

/// Reads every command frame that a buffer holds. A frame that is no
/// command stands in the result as its error.
pub fn scan(buf: &[u8]) -> (frames: Vec<Result<Command, Error>>)
    ensures
        frames@ == spec_scan(buf@, 0),
{
    let mut frames: Vec<Result<Command, Error>> = Vec::new();
    let mut from: usize = 0;
    loop
        invariant
            from <= buf@.len(),
            spec_scan(buf@, 0) == frames@ + spec_scan(buf@, from as int),
        decreases buf@.len() - from,
    {
        let at = find_magic(buf, from);
        if at >= buf.len() || buf.len() - at < 3 {
            proof {
                lemma_find_magic(buf@, from as int);
                assert(spec_scan(buf@, from as int) =~= seq![]);
                assert(frames@ + Seq::<Result<Command, Error>>::empty() =~= frames@);
            }
            return frames;
        }
        let rest = vstd::slice::slice_subrange(buf, at + 3, buf.len());
        let mut reader = Reader::new(rest);
        assert(reader.remaining() =~= rest@);
        let frame = Command::read(&mut reader);
        let taken = reader.position();
        proof {
            let tail = spec_scan(buf@, at + 3 + taken);
            assert(spec_scan(buf@, from as int) == seq![frame] + tail);
            assert(frames@.push(frame) + tail =~= frames@ + (seq![frame] + tail));
        }
        frames.push(frame);
        from = at + 3 + taken;
    }
}

/// A frame whose kind names no command costs its own five bytes and no
/// others: it stands in the result as its error, and the search goes on
/// right behind its action.
pub proof fn lemma_unknown_kind_costs_its_frame(s: Seq<u8>, from: int)
    requires
        0 <= from <= s.len(),
        spec_find_magic(s, from) + 5 <= s.len(),
        CommandAction::spec_from_byte(s[spec_find_magic(s, from) + 4]) is Ok,
        s[spec_find_magic(s, from) + 3] != KIND_STEPS,
        s[spec_find_magic(s, from) + 3] != KIND_BATTERY,
        s[spec_find_magic(s, from) + 3] != KIND_HEARTRATE,
        s[spec_find_magic(s, from) + 3] != KIND_HEARTRATE_CONTINUOUS,
        s[spec_find_magic(s, from) + 3] != KIND_ALERT,
        s[spec_find_magic(s, from) + 3] != KIND_NAME,
    ensures
        spec_scan(s, from) == seq![
            Err::<Command, Error>(
                Error::Parse {
                    expected: EXPECTED_KIND,
                    position: 0,
                    actual: s[spec_find_magic(s, from) + 3],
                },
            ),
        ] + spec_scan(s, spec_find_magic(s, from) + 5),
{
    lemma_find_magic(s, from);
    let at = spec_find_magic(s, from);
    let rest = s.subrange(at + 3, s.len() as int);
    assert(rest[0] == s[at + 3]);
    assert(rest[1] == s[at + 4]);
}

/// Every frame that is found takes at least the magic: a buffer holds no
/// more frames than a third of its bytes.
pub proof fn lemma_scan_is_bounded(s: Seq<u8>, from: int)
    requires
        0 <= from <= s.len(),
    ensures
        3 * spec_scan(s, from).len() <= s.len() - from,
    decreases s.len() - from,
{
    lemma_find_magic(s, from);
    let at = spec_find_magic(s, from);
    if at + 3 <= s.len() {
        let rest = s.subrange(at + 3, s.len() as int);
        crate::command::lemma_read_takes_what_is_there(rest);
        lemma_scan_is_bounded(s, at + 3 + spec_read(rest).1);
    }
}

/// What became of an attempt to read from a client or to write to one.
#[derive(Debug, Clone, Copy, PartialEq, Eq)]
pub enum Transfer {
    /// This many bytes were moved.
    Moved(usize),
    /// The attempt failed.
    Failed(IoFault),
}

/// The bytes that a read brought: the first `n` of the buffer. A count
/// beyond the buffer's length, which no read gives, stands for all of it.
pub open spec fn spec_received(n: usize, buf: Seq<u8>) -> Seq<u8> {
    if n <= buf.len() {
        buf.subrange(0, n as int)
    } else {
        buf
    }
}

/// What a read from a client comes to.
///
/// The bytes that the read brought are scanned for commands, and no others:
/// what the buffer holds behind them is left from earlier reads and was
/// dealt with then. A read that would have had to wait brings nothing. A
/// read of no bytes means that the client is gone, and that or any other
/// failure ends the handler of this client.
pub open spec fn spec_read_and_command(read: Transfer, buf: Seq<u8>) -> Result<
    Seq<Result<Command, Error>>,
    Error,
> {
    match read {
        Transfer::Moved(n) => if n == 0 {
            Err(Error::Io(IoFault::BrokenPipe))
        } else {
            Ok(spec_scan(spec_received(n, buf), 0))
        },
        Transfer::Failed(IoFault::WouldBlock) => Ok(seq![]),
        Transfer::Failed(fault) => Err(Error::Io(fault)),
    }
}

/// Decides what a read from a client comes to: the frames to hand on, or
/// the error that ends the handler. `buf` is the buffer that was read into.
pub fn read_and_command(read: Transfer, buf: &[u8]) -> (r: Result<Vec<Result<Command, Error>>, Error>)
    ensures
        match spec_read_and_command(read, buf@) {
            Ok(frames) => r is Ok && r->Ok_0@ == frames,
            Err(e) => r == Err::<Vec<Result<Command, Error>>, Error>(e),
        },
{
    match read {
        Transfer::Moved(n) => {
            if n == 0 {
                Err(Error::Io(IoFault::BrokenPipe))
            } else if n <= buf.len() {
                Ok(scan(vstd::slice::slice_subrange(buf, 0, n)))
            } else {
                Ok(scan(buf))
            }
        },
        Transfer::Failed(IoFault::WouldBlock) => Ok(Vec::new()),
        Transfer::Failed(fault) => Err(Error::Io(fault)),
    }
}

/// What a read comes to depends on the bytes it brought alone: whatever
/// the buffer holds behind them, a frame that an earlier read delivered is
/// not delivered again. A read of fewer bytes than the magic has brings no
/// frame at all.
pub proof fn lemma_only_what_was_read(n: usize, a: Seq<u8>, b: Seq<u8>)
    requires
        0 < n <= a.len(),
        n <= b.len(),
        a.subrange(0, n as int) == b.subrange(0, n as int),
    ensures
        spec_read_and_command(Transfer::Moved(n), a) == spec_read_and_command(Transfer::Moved(n), b),
        n < 3 ==> spec_read_and_command(Transfer::Moved(n), a) == Ok::<
            Seq<Result<Command, Error>>,
            Error,
        >(seq![]),
{
    let got = a.subrange(0, n as int);
    lemma_find_magic(got, 0);
}

/// How a message went out to a client.
#[derive(Debug, Clone, Copy, PartialEq, Eq)]
pub enum Sent {
    /// The whole frame was written.
    Whole,
    /// Only a part of the frame was written; the client may be confused.
    Partly,
    /// The client could not take the frame now; it is not sent again.
    Skipped,
}

/// What a write of a frame of `len` bytes to a client comes to.
///
/// A write that would have had to wait is passed over. A write of no bytes
/// means that the client is gone, and that or any other failure ends the
/// handler of this client.
pub open spec fn spec_send(written: Transfer, len: usize) -> Result<Sent, Error> {
    match written {
        Transfer::Moved(n) => if n == 0 {
            Err(Error::Io(IoFault::BrokenPipe))
        } else if n == len {
            Ok(Sent::Whole)
        } else {
            Ok(Sent::Partly)
        },
        Transfer::Failed(IoFault::WouldBlock) => Ok(Sent::Skipped),
        Transfer::Failed(fault) => Err(Error::Io(fault)),
    }
}

/// Decides what a write to a client comes to.
pub fn send(written: Transfer, len: usize) -> (r: Result<Sent, Error>)
    ensures
        r == spec_send(written, len),
{
    match written {
        Transfer::Moved(n) => {
            if n == 0 {
                Err(Error::Io(IoFault::BrokenPipe))
            } else if n == len {
                Ok(Sent::Whole)
            } else {
                Ok(Sent::Partly)
            }
        },
        Transfer::Failed(IoFault::WouldBlock) => Ok(Sent::Skipped),
        Transfer::Failed(fault) => Err(Error::Io(fault)),
    }
}

/// The slot through which the clients see what was published last. It
/// holds one message and no queue: a reader that was away while several
/// messages were published finds the last of them and nothing else.
#[derive(Debug, Clone, Copy, PartialEq, Eq)]
pub struct Broadcast {
    /// The message published last.
    pub latest: Message,
    /// Counts the messages published, and starts again from zero when the
    /// count has reached the largest number it can hold.
    pub version: u64,
}

/// What one reader has seen of a slot.
#[derive(Debug, Clone, Copy, PartialEq, Eq)]
pub struct Subscription {
    /// The version of the slot when the reader last looked.
    pub seen: u64,
}

/// The version after `version`.
pub open spec fn spec_next_version(version: u64) -> u64 {
    if version == u64::MAX {
        0
    } else {
        (version + 1) as u64
    }
}

impl Broadcast {
    /// The slot after `message` was published.
    pub open spec fn spec_publish(self, message: Message) -> Broadcast {
        Broadcast { latest: message, version: spec_next_version(self.version) }
    }

    /// The slot after each of `messages` was published, in order.
    pub open spec fn spec_publish_all(self, messages: Seq<Message>) -> Broadcast
        decreases messages.len(),
    {
        if messages.len() == 0 {
            self
        } else {
            self.spec_publish_all(messages.drop_last()).spec_publish(messages.last())
        }
    }

    /// What a reader finds that last looked at version `seen`: the latest
    /// message if anything was published since, else nothing.
    pub open spec fn spec_poll(self, seen: u64) -> Option<Message> {
        if seen != self.version {
            Some(self.latest)
        } else {
            None
        }
    }

    /// A slot that holds `initial`, which counts as seen by every reader
    /// that subscribes before the first message is published.
    pub fn new(initial: Message) -> (slot: Broadcast)
        ensures
            slot == (Broadcast { latest: initial, version: 0 }),
    {
        Broadcast { latest: initial, version: 0 }
    }

    /// Puts a message into the slot, in place of the one before.
    pub fn publish(&mut self, message: Message)
        ensures
            *final(self) == old(self).spec_publish(message),
    {
        self.latest = message;
        self.version = if self.version == u64::MAX {
            0
        } else {
            self.version + 1
        };
    }

    /// A reader that has seen what the slot holds now.
    pub fn subscribe(&self) -> (subscription: Subscription)
        ensures
            subscription.seen == self.version,
    {
        Subscription { seen: self.version }
    }

    /// Looks into the slot for a reader: the latest message if one was
    /// published since the reader last looked, which the reader has then
    /// seen.
    pub fn poll(&self, subscription: &mut Subscription) -> (update: Option<Message>)
        ensures
            update == self.spec_poll(old(subscription).seen),
            final(subscription).seen == self.version,
    {
        if subscription.seen != self.version {
            subscription.seen = self.version;
            Some(self.latest)
        } else {
            None
        }
    }
}

/// A reader that was up to date and then misses two messages observes one
/// update, the second message, and after that none.
pub proof fn lemma_two_messages_coalesce(slot: Broadcast, first: Message, second: Message)
    ensures
        slot.spec_publish(first).spec_publish(second).spec_poll(slot.version) == Some(second),
        slot.spec_publish(first).spec_publish(second).spec_poll(
            slot.spec_publish(first).spec_publish(second).version,
        ) is None,
{
}

/// The version of a slot after a number of messages is its version before
/// plus that number, counted round the range of the version.
pub proof fn lemma_version_counts(slot: Broadcast, messages: Seq<Message>)
    ensures
        slot.spec_publish_all(messages).version == (slot.version + messages.len())
            % 0x1_0000_0000_0000_0000,
        messages.len() > 0 ==> slot.spec_publish_all(messages).latest == messages.last(),
    decreases messages.len(),
{
    if messages.len() > 0 {
        lemma_version_counts(slot, messages.drop_last());
    }
}

/// A reader that was up to date and then misses any number of messages,
/// short of as many as there are versions, observes one update, the last
/// of them, and after that none.
pub proof fn lemma_messages_coalesce(slot: Broadcast, messages: Seq<Message>)
    requires
        0 < messages.len() < 0x1_0000_0000_0000_0000,
    ensures
        slot.spec_publish_all(messages).spec_poll(slot.version) == Some(messages.last()),
        slot.spec_publish_all(messages).spec_poll(slot.spec_publish_all(messages).version) is None,
{
    lemma_version_counts(slot, messages);
}

} // verus!
