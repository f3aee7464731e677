//! The connection and its authentication handshake as a state machine.
//!
//! The machine decides; the program around it acts. Each step takes what
//! happened on the transport and says what to do next.

use vstd::prelude::*;
use crate::devices::miband::notifications::{AUTH_AWAITING, AUTH_CONFIRMED, AUTH_FAILED, AUTH_SUCCESS, AUTH_TIMEOUT};
use crate::devices::bluetooth::Capabilities;
use crate::devices::miband::registry::{missing, required, spec_missing, spec_required};
use crate::devices::miband::{DeviceInfo, User};
use crate::error::{Error, TransportFault};

verus! {

/// Where a session stands.
#[derive(Debug, Clone, Copy, PartialEq, Eq)]
pub enum State {
    Disconnected,
    /// The transport connects and the characteristics are looked up.
    Discovering,
    /// The device info is read; the user record is being written.
    InfoFetched,
    /// The user record is written.
    UserSent,
    /// The band has the user record and is to answer.
    AwaitingConfirmation,
    Authenticated,
    /// The attempt came to nothing.
    Failed,
    /// The wearer did not confirm in time.
    TimedOut,
}

/// What the band says in the handshake.
#[derive(Debug, Clone, Copy, PartialEq, Eq)]
pub enum AuthSignal {
    Awaiting,
    Confirmed,
    Success,
    Failed,
    Timeout,
}

/// What happened on the transport.
#[derive(Debug, Clone, PartialEq, Eq)]
pub enum Event {
    /// The orchestrator asks for a connection.
    Connect,
    /// The transport is connected and the characteristics were looked up:
    /// these are the UUIDs of those that were found.
    Discovered(Vec<u128>),
    /// The device info characteristic was read and held this.
    Info(Vec<u8>),
    /// The user record was written.
    UserWritten,
    /// The notifications of the band are being consumed.
    Listening,
    /// The band sent this notification.
    Notification(Vec<u8>),
    /// The stream of notifications ended, as it does when the link is gone.
    Ended,
    /// The transport failed.
    Fault(TransportFault),
}

/// What the program is to do next.
#[derive(Debug, Clone, Copy, PartialEq, Eq)]
pub enum Action {
    /// Connect the transport, forget every characteristic known so far and
    /// look all of them up again.
    Discover,
    /// Read the device info characteristic.
    ReadInfo,
    /// Write the user record with this authentication flag.
    WriteUser { auth: bool },
    /// Begin to consume the notifications of the band.
    Listen,
    /// Wait for the next notification.
    Wait,
    /// The session is authenticated: push the date and time and ask for
    /// the low-latency parameters, neither of which has to succeed.
    Setup,
    /// Give the attempt up with this error.
    Abort(Error),
    /// Nothing: the event does not concern the session as it stands.
    Nothing,
}

/// The signal that a notification stands for: one byte of the handshake's
/// vocabulary. Any other payload stands for none.
pub open spec fn spec_signal(payload: Seq<u8>) -> Option<AuthSignal> {
    if payload.len() != 1 {
        None
    } else if payload[0] == AUTH_AWAITING {
        Some(AuthSignal::Awaiting)
    } else if payload[0] == AUTH_CONFIRMED {
        Some(AuthSignal::Confirmed)
    } else if payload[0] == AUTH_SUCCESS {
        Some(AuthSignal::Success)
    } else if payload[0] == AUTH_FAILED {
        Some(AuthSignal::Failed)
    } else if payload[0] == AUTH_TIMEOUT {
        Some(AuthSignal::Timeout)
    } else {
        None
    }
}

/// Reads a notification as a signal of the handshake.
pub fn signal(payload: &[u8]) -> (s: Option<AuthSignal>)
    ensures
        s == spec_signal(payload@),
{
    if payload.len() != 1 {
        None
    } else if payload[0] == AUTH_AWAITING {
        Some(AuthSignal::Awaiting)
    } else if payload[0] == AUTH_CONFIRMED {
        Some(AuthSignal::Confirmed)
    } else if payload[0] == AUTH_SUCCESS {
        Some(AuthSignal::Success)
    } else if payload[0] == AUTH_FAILED {
        Some(AuthSignal::Failed)
    } else if payload[0] == AUTH_TIMEOUT {
        Some(AuthSignal::Timeout)
    } else {
        None
    }
}

impl State {
    /// Whether an attempt is under way: the transport is in use and the
    /// session is not authenticated yet.
    pub open spec fn in_progress(self) -> bool {
        self == State::Discovering || self == State::InfoFetched || self == State::UserSent || self
            == State::AwaitingConfirmation
    }

    /// Whether a new attempt may start from here.
    pub open spec fn at_rest(self) -> bool {
        self == State::Disconnected || self == State::Failed || self == State::TimedOut
    }

    /// Whether the device info of this connection is known by now.
    pub open spec fn knows_device(self) -> bool {
        self == State::InfoFetched || self == State::UserSent || self == State::AwaitingConfirmation
            || self == State::Authenticated
    }

    /// Says whether a new attempt may start from here.
    pub fn is_at_rest(self) -> (yes: bool)
        ensures
            yes == self.at_rest(),
    {
        match self {
            State::Disconnected => true,
            State::Failed => true,
            State::TimedOut => true,
            _ => false,
        }
    }

    /// Says whether the device info of this connection is known by now.
    pub fn does_know_device(self) -> (yes: bool)
        ensures
            yes == self.knows_device(),
    {
        match self {
            State::InfoFetched => true,
            State::UserSent => true,
            State::AwaitingConfirmation => true,
            State::Authenticated => true,
            _ => false,
        }
    }
}

/// Whether the characteristics `known` are all that a device of
/// capabilities `c` needs.
pub open spec fn spec_populated(c: Capabilities, known: Seq<u128>) -> bool {
    spec_missing(spec_required(c), known) is None
}

/// The state after an event, and what to do, for a session that knows the
/// characteristics `known`.
///
/// A connection starts from rest only; asked of a session that is
/// connecting or connected it does nothing. A discovery that found every
/// characteristic that a device of capabilities `c` needs is followed by
/// reading the device info; one that is missing ends the attempt. The
/// device info counts only once such a discovery was reported: before
/// that it is passed over. A record that cannot be decoded ends the
/// attempt. The user record goes out first with the flag down. While
/// the band is to answer, `AWAITING` changes nothing, `CONFIRMED` and
/// `SUCCESS` authenticate, `FAILED` sends the user record again with the
/// flag up, `TIMEOUT` ends the attempt, and any other notification is
/// passed over. A fault of the transport ends an attempt, and disconnects
/// an authenticated session; the end of the notifications is such a fault.
pub open spec fn spec_step(state: State, known: Seq<u128>, c: Capabilities, event: Event) -> (
    State,
    Action,
) {
    match event {
        Event::Connect => if state.at_rest() {
            (State::Discovering, Action::Discover)
        } else {
            (state, Action::Nothing)
        },
        Event::Discovered(found) => if state == State::Discovering {
            if spec_populated(c, found@) {
                (State::Discovering, Action::ReadInfo)
            } else {
                (State::Failed, Action::Abort(Error::Bluetooth(TransportFault::NotFound)))
            }
        } else {
            (state, Action::Nothing)
        },
        Event::Info(payload) => if state == State::Discovering && spec_populated(c, known) {
            match DeviceInfo::spec_try_from(payload@) {
                Ok(_) => (State::InfoFetched, Action::WriteUser { auth: false }),
                Err(e) => (State::Failed, Action::Abort(e)),
            }
        } else {
            (state, Action::Nothing)
        },
        Event::UserWritten => if state == State::InfoFetched {
            (State::UserSent, Action::Listen)
        } else if state == State::UserSent {
            (State::AwaitingConfirmation, Action::Wait)
        } else {
            (state, Action::Nothing)
        },
        Event::Listening => if state == State::UserSent {
            (State::AwaitingConfirmation, Action::Wait)
        } else {
            (state, Action::Nothing)
        },
        Event::Notification(payload) => if state == State::AwaitingConfirmation {
            match spec_signal(payload@) {
                Some(AuthSignal::Awaiting) => (State::AwaitingConfirmation, Action::Wait),
                Some(AuthSignal::Confirmed) => (State::Authenticated, Action::Setup),
                Some(AuthSignal::Success) => (State::Authenticated, Action::Setup),
                Some(AuthSignal::Failed) => (State::UserSent, Action::WriteUser { auth: true }),
                Some(AuthSignal::Timeout) => (
                    State::TimedOut,
                    Action::Abort(Error::Protocol { notification: AUTH_TIMEOUT }),
                ),
                None => (State::AwaitingConfirmation, Action::Wait),
            }
        } else {
            (state, Action::Nothing)
        },
        Event::Ended => spec_fault(state, TransportFault::Other),
        Event::Fault(fault) => spec_fault(state, fault),
    }
}

/// The state after a fault of the transport, and what to do: an attempt
/// under way has failed, an authenticated session is disconnected, and a
/// session at rest is not concerned.
pub open spec fn spec_fault(state: State, fault: TransportFault) -> (State, Action) {
    if state.in_progress() {
        (State::Failed, Action::Abort(Error::Bluetooth(fault)))
    } else if state == State::Authenticated {
        (State::Disconnected, Action::Abort(Error::Bluetooth(fault)))
    } else {
        (state, Action::Nothing)
    }
}

/// The characteristics that the session knows after an event: those of a
/// discovery that found all that is needed, in place of any it knew
/// before; none at rest and none when a connection begins; and else those
/// it knew.
pub open spec fn spec_known(state: State, known: Seq<u128>, c: Capabilities, event: Event) -> Seq<
    u128,
> {
    let next = spec_step(state, known, c, event).0;
    if state.at_rest() || next.at_rest() {
        seq![]
    } else if state == State::Discovering && (event is Discovered) {
        event->Discovered_0@
    } else {
        known
    }
}

/// The device info that the session holds after an event: that of the
/// record just read, none once the connection is given up or begun anew,
/// and else what it held.
pub open spec fn spec_device_info(
    state: State,
    known: Seq<u128>,
    c: Capabilities,
    held: Option<DeviceInfo>,
    event: Event,
) -> Option<DeviceInfo> {
    let next = spec_step(state, known, c, event).0;
    if state == State::Discovering && (event is Info) && next == State::InfoFetched {
        Some(DeviceInfo::spec_from_bytes(event->Info_0@))
    } else if next.knows_device() {
        held
    } else {
        None
    }
}

/// A session becomes authenticated in one way only: the band, asked and
/// still to answer, confirms or knows the user.
pub proof fn lemma_authentication_needs_consent(
    state: State,
    known: Seq<u128>,
    c: Capabilities,
    event: Event,
)
    requires
        state != State::Authenticated,
        spec_step(state, known, c, event).0 == State::Authenticated,
    ensures
        state == State::AwaitingConfirmation,
        event is Notification,
        spec_signal(event->Notification_0@) == Some(AuthSignal::Confirmed) || spec_signal(
            event->Notification_0@,
        ) == Some(AuthSignal::Success),
        spec_step(state, known, c, event).1 == Action::Setup,
{
}

/// The user record goes out with the flag down exactly when the device
/// info was just read, which takes that every characteristic needed is
/// known, and with the flag up exactly when the band, still to answer,
/// refuses.
pub proof fn lemma_user_record_flag(state: State, known: Seq<u128>, c: Capabilities, event: Event)
    ensures
        spec_step(state, known, c, event).1 == (Action::WriteUser { auth: false }) <==> state
            == State::Discovering && spec_populated(c, known) && event is Info
            && DeviceInfo::spec_try_from(event->Info_0@) is Ok,
        spec_step(state, known, c, event).1 == (Action::WriteUser { auth: true }) <==> state
            == State::AwaitingConfirmation && event is Notification && spec_signal(
            event->Notification_0@,
        ) == Some(AuthSignal::Failed),
{
}

/// A session at rest stays as it is until a connection is asked for, and
/// an attempt that was given up is left by nothing else.
pub proof fn lemma_rest_is_left_by_connect_only(
    state: State,
    known: Seq<u128>,
    c: Capabilities,
    event: Event,
)
    requires
        state.at_rest(),
    ensures
        event is Connect ==> spec_step(state, known, c, event) == (
            State::Discovering,
            Action::Discover,
        ),
        !(event is Connect) ==> spec_step(state, known, c, event) == (state, Action::Nothing),
{
}

/// The characteristics of a discovery take the place of those known
/// before and are never merged with them: after any event the session
/// knows what it knew, or what the discovery found, or nothing. A new
/// connection begins with nothing, and the step from discovering on is
/// taken only with all that is needed.
pub proof fn lemma_registry_is_replaced(state: State, known: Seq<u128>, c: Capabilities, event: Event)
    ensures
        spec_known(state, known, c, event) == known || spec_known(state, known, c, event)
            == Seq::<u128>::empty() || (event is Discovered && spec_known(state, known, c, event)
            == event->Discovered_0@),
        state.at_rest() ==> spec_known(state, known, c, event) == Seq::<u128>::empty(),
        !state.knows_device() && spec_step(state, known, c, event).0.knows_device()
            ==> spec_populated(c, known) && spec_known(state, known, c, event) == known,
{
}

/// Whether a notification leaves the handshake open: it neither
/// authenticates nor ends the attempt.
pub open spec fn spec_undecided(payload: Seq<u8>) -> bool {
    spec_signal(payload) != Some(AuthSignal::Confirmed) && spec_signal(payload) != Some(
        AuthSignal::Success,
    ) && spec_signal(payload) != Some(AuthSignal::Timeout)
}

/// How many of the notifications are refusals.
pub open spec fn spec_failures(notifications: Seq<Vec<u8>>) -> nat
    decreases notifications.len(),
{
    if notifications.len() == 0 {
        0
    } else {
        spec_failures(notifications.drop_last()) + (if spec_signal(notifications.last()@) == Some(
            AuthSignal::Failed,
        ) {
            1nat
        } else {
            0nat
        })
    }
}

/// A session that is fed the notifications one after the other, by a
/// program that writes each user record it is asked for and says so: the
/// state at the end, and the flags of the records written on the way.
pub open spec fn spec_answers(
    state: State,
    known: Seq<u128>,
    c: Capabilities,
    notifications: Seq<Vec<u8>>,
) -> (State, Seq<bool>)
    decreases notifications.len(),
{
    if notifications.len() == 0 {
        (state, seq![])
    } else {
        let (before, flags) = spec_answers(state, known, c, notifications.drop_last());
        let (next, action) = spec_step(before, known, c, Event::Notification(notifications.last()));
        match action {
            Action::WriteUser { auth } => (
                spec_step(next, known, c, Event::UserWritten).0,
                flags.push(auth),
            ),
            _ => (next, flags),
        }
    }
}

/// As long as the band neither consents nor gives up, the session goes on
/// waiting, and the user record is written once more for each refusal, each
/// time with the flag up.
pub proof fn lemma_each_failure_is_answered_once(
    known: Seq<u128>,
    c: Capabilities,
    notifications: Seq<Vec<u8>>,
)
    requires
        forall|i: int| 0 <= i < notifications.len() ==> spec_undecided(#[trigger] notifications[i]@),
    ensures
        spec_answers(State::AwaitingConfirmation, known, c, notifications).0
            == State::AwaitingConfirmation,
        spec_answers(State::AwaitingConfirmation, known, c, notifications).1.len() == spec_failures(
            notifications,
        ),
        forall|j: int|
            0 <= j < spec_failures(notifications) ==> #[trigger] spec_answers(
                State::AwaitingConfirmation,
                known,
                c,
                notifications,
            ).1[j],
    decreases notifications.len(),
{
    if notifications.len() > 0 {
        let earlier = notifications.drop_last();
        assert forall|i: int| 0 <= i < earlier.len() implies spec_undecided(
            #[trigger] earlier[i]@,
        ) by {
            assert(earlier[i] == notifications[i]);
        }
        lemma_each_failure_is_answered_once(known, c, earlier);
        assert(spec_undecided(notifications[notifications.len() - 1]@));
    }
}

/// When the band consents at last, the session is authenticated, and no
/// user record is written for the consent: with the first record, which
/// goes out with the flag down, there was one record and one more for each
/// refusal.
pub proof fn lemma_consent_ends_the_handshake(
    known: Seq<u128>,
    c: Capabilities,
    notifications: Seq<Vec<u8>>,
    consent: Vec<u8>,
)
    requires
        forall|i: int| 0 <= i < notifications.len() ==> spec_undecided(#[trigger] notifications[i]@),
        spec_signal(consent@) == Some(AuthSignal::Confirmed) || spec_signal(consent@) == Some(
            AuthSignal::Success,
        ),
    ensures
        spec_answers(State::AwaitingConfirmation, known, c, notifications.push(consent)).0
            == State::Authenticated,
        spec_answers(State::AwaitingConfirmation, known, c, notifications.push(consent)).1
            == spec_answers(State::AwaitingConfirmation, known, c, notifications).1,
        spec_answers(State::AwaitingConfirmation, known, c, notifications.push(consent)).1.len()
            == spec_failures(notifications),
{
    lemma_each_failure_is_answered_once(known, c, notifications);
    assert(notifications.push(consent).drop_last() =~= notifications);
}

/// One session with a band.
#[derive(Debug, Clone, PartialEq, Eq)]
pub struct Session {
    pub state: State,
    pub user: User,
    /// What the band said of itself in this connection.
    pub device_info: Option<DeviceInfo>,
    /// The last octet of the band's link-layer address.
    pub address_last: u8,
    /// What the band can do.
    pub capabilities: Capabilities,
    /// The UUIDs of the characteristics that were found in this
    /// connection. They are those of one discovery, and none at rest.
    pub characteristics: Vec<u128>,
}

impl Session {
    /// A session is well formed when it knows no characteristic at rest,
    /// and from the moment it has read the device info holds it and knows
    /// every characteristic that the band's capabilities need.
    pub open spec fn wf(&self) -> bool {
        &&& self.state.at_rest() ==> self.characteristics@ == Seq::<u128>::empty()
        &&& self.state.knows_device() ==> self.device_info is Some && spec_populated(
            self.capabilities,
            self.characteristics@,
        )
    }

    /// A session that is not connected.
    pub fn new(user: User, address_last: u8, capabilities: Capabilities) -> (session: Session)
        ensures
            session.state == State::Disconnected,
            session.user == user,
            session.device_info is None,
            session.address_last == address_last,
            session.capabilities == capabilities,
            session.characteristics@ == Seq::<u128>::empty(),
            session.wf(),
    {
        Session {
            state: State::Disconnected,
            user,
            device_info: None,
            address_last,
            capabilities,
            characteristics: Vec::new(),
        }
    }

    /// Whether the session knows every characteristic that the band's
    /// capabilities need.
    pub fn is_populated(&self) -> (yes: bool)
        ensures
            yes == spec_populated(self.capabilities, self.characteristics@),
    {
        let needed = required(&self.capabilities);
        match missing(needed.as_slice(), self.characteristics.as_slice()) {
            None => true,
            Some(_) => false,
        }
    }

    /// Whether the capabilities may be used: the session is authenticated
    /// and knows every characteristic that they need. Of a well-formed
    /// session the first says the second.
    pub fn is_ready(&self) -> (ready: bool)
        ensures
            ready == (self.state == State::Authenticated && spec_populated(
                self.capabilities,
                self.characteristics@,
            )),
            self.wf() ==> ready == (self.state == State::Authenticated),
    {
        match self.state {
            State::Authenticated => self.is_populated(),
            _ => false,
        }
    }

    /// What a fault of the transport does to a session in `state`.
    fn fault(state: State, fault: TransportFault) -> (r: (State, Action))
        ensures
            r == spec_fault(state, fault),
    {
        match state {
            State::Discovering | State::InfoFetched | State::UserSent | State::AwaitingConfirmation => (
                State::Failed,
                Action::Abort(Error::Bluetooth(fault)),
            ),
            State::Authenticated => (State::Disconnected, Action::Abort(Error::Bluetooth(fault))),
            _ => (state, Action::Nothing),
        }
    }

    /// Takes an event and says what to do next.
    pub fn step(&mut self, event: Event) -> (action: Action)
        ensures
            (final(self).state, action) == spec_step(
                old(self).state,
                old(self).characteristics@,
                old(self).capabilities,
                event,
            ),
            final(self).device_info == spec_device_info(
                old(self).state,
                old(self).characteristics@,
                old(self).capabilities,
                old(self).device_info,
                event,
            ),
            final(self).characteristics@ == spec_known(
                old(self).state,
                old(self).characteristics@,
                old(self).capabilities,
                event,
            ),
            final(self).user == old(self).user,
            final(self).address_last == old(self).address_last,
            final(self).capabilities == old(self).capabilities,
            old(self).wf() ==> final(self).wf(),
    {
        let state = self.state;
        let (next, action): (State, Action) = match event {
            Event::Connect => {
                if state.is_at_rest() {
                    (State::Discovering, Action::Discover)
                } else {
                    (state, Action::Nothing)
                }
            },
            Event::Discovered(found) => {
                match state {
                    State::Discovering => {
                        self.characteristics = found;
                        if self.is_populated() {
                            (State::Discovering, Action::ReadInfo)
                        } else {
                            (State::Failed, Action::Abort(Error::Bluetooth(TransportFault::NotFound)))
                        }
                    },
                    _ => (state, Action::Nothing),
                }
            },
            Event::Info(payload) => {
                match state {
                    State::Discovering => {
                        if self.is_populated() {
                            match DeviceInfo::try_from(payload.as_slice()) {
                                Ok(info) => {
                                    self.device_info = Some(info);
                                    (State::InfoFetched, Action::WriteUser { auth: false })
                                },
                                Err(e) => (State::Failed, Action::Abort(e)),
                            }
                        } else {
                            (state, Action::Nothing)
                        }
                    },
                    _ => (state, Action::Nothing),
                }
            },
            Event::UserWritten => {
                match state {
                    State::InfoFetched => (State::UserSent, Action::Listen),
                    State::UserSent => (State::AwaitingConfirmation, Action::Wait),
                    _ => (state, Action::Nothing),
                }
            },
            Event::Listening => {
                match state {
                    State::UserSent => (State::AwaitingConfirmation, Action::Wait),
                    _ => (state, Action::Nothing),
                }
            },
            Event::Notification(payload) => {
                match state {
                    State::AwaitingConfirmation => match signal(payload.as_slice()) {
                        Some(AuthSignal::Confirmed) => (State::Authenticated, Action::Setup),
                        Some(AuthSignal::Success) => (State::Authenticated, Action::Setup),
                        Some(AuthSignal::Failed) => (State::UserSent, Action::WriteUser { auth: true }),
                        Some(AuthSignal::Timeout) => (
                            State::TimedOut,
                            Action::Abort(Error::Protocol { notification: AUTH_TIMEOUT }),
                        ),
                        _ => (State::AwaitingConfirmation, Action::Wait),
                    },
                    _ => (state, Action::Nothing),
                }
            },
            Event::Ended => Session::fault(state, TransportFault::Other),
            Event::Fault(fault) => Session::fault(state, fault),
        };
        if state.is_at_rest() || next.is_at_rest() {
            self.characteristics = Vec::new();
        }
        if !next.does_know_device() {
            self.device_info = None;
        }
        self.state = next;
        action
    }

    /// The user record to write for `Action::WriteUser`, if the device info
    /// that goes into it has been read.
    pub fn user_record(&self, auth: bool) -> (record: Option<[u8; 20]>)
        ensures
            record is Some <==> self.device_info is Some,
            record matches Some(bytes) ==> bytes@ == self.user.spec_record(
                auth,
                self.device_info->Some_0,
                self.address_last,
            ),
    {
        match &self.device_info {
            Some(info) => Some(self.user.record(auth, info, self.address_last)),
            None => None,
        }
    }
}

} // verus!
