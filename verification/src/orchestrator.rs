//! The decisions of the program that runs a device and the relay: which
//! streams of telemetry to feed into the relay, and what to ask of the
//! device for a command.

use vstd::prelude::*;
use crate::command::{Command, CommandAction};
use crate::devices::bluetooth::Capabilities;

verus! {

/// A stream of telemetry that a device may feed into the relay.
#[derive(Debug, Clone, Copy, PartialEq, Eq)]
pub enum Telemetry {
    Battery,
    Steps,
    Heartrate,
}

/// The streams to register with the relay for a device: one for each of
/// battery, steps and heart rate that the device has, in this order.
pub open spec fn spec_messengers(c: Capabilities) -> Seq<Telemetry> {
    (if c.battery { seq![Telemetry::Battery] } else { seq![] })
        + (if c.steps { seq![Telemetry::Steps] } else { seq![] })
        + (if c.heartrate { seq![Telemetry::Heartrate] } else { seq![] })
}

/// Says which streams to register with the relay for a device.
pub fn messengers(c: &Capabilities) -> (streams: Vec<Telemetry>)
    ensures
        streams@ == spec_messengers(*c),
{
    let mut streams: Vec<Telemetry> = Vec::new();
    if c.battery {
        streams.push(Telemetry::Battery);
    }
    if c.steps {
        streams.push(Telemetry::Steps);
    }
    if c.heartrate {
        streams.push(Telemetry::Heartrate);
    }
    assert(streams@ =~= spec_messengers(*c));
    streams
}

/// A stream is registered for a device exactly if the device has the
/// capability: without the heart rate, no stream of heart rates is ever
/// registered, and so for the others.
pub proof fn lemma_messengers_follow_capabilities(c: Capabilities)
    ensures
        spec_messengers(c).contains(Telemetry::Battery) <==> c.battery,
        spec_messengers(c).contains(Telemetry::Steps) <==> c.steps,
        spec_messengers(c).contains(Telemetry::Heartrate) <==> c.heartrate,
{
    let s = spec_messengers(c);
    let b: Seq<Telemetry> = if c.battery { seq![Telemetry::Battery] } else { seq![] };
    let t: Seq<Telemetry> = if c.steps { seq![Telemetry::Steps] } else { seq![] };
    let h: Seq<Telemetry> = if c.heartrate { seq![Telemetry::Heartrate] } else { seq![] };
    assert(s == b + t + h);
    if c.battery {
        assert(s[0] == Telemetry::Battery);
    }
    if c.steps {
        assert(s[b.len() as int] == Telemetry::Steps);
    }
    if c.heartrate {
        assert(s[(b.len() + t.len()) as int] == Telemetry::Heartrate);
    }
}

/// What to ask of the device.
#[derive(Debug, Clone, Copy, PartialEq, Eq)]
pub enum Request {
    /// Read the steps and publish them.
    ReadSteps,
    /// Set the steps counted so far.
    SetSteps(u32),
    /// Read the battery and publish its level.
    ReadBattery,
    /// Start one measurement of the heart rate.
    MeasureHeartrate,
    /// Switch the continuous measurement of the heart rate.
    HeartrateContinuous(bool),
    /// Read the device's name.
    ReadName,
    /// Nothing: the device lacks the capability, which is no error.
    Unsupported,
    /// Nothing: the command is known but not acted on, which is worth a
    /// warning.
    NotImplemented,
}

/// What to ask of a device with capabilities `c` for a command.
///
/// Steps, battery and heart rate are asked of a device that has them and
/// passed over on one that has not. The name can be asked of any device.
/// A command to set the steps that carries no number, and every other
/// command, is not acted on.
pub open spec fn spec_request(command: Command, c: Capabilities) -> Request {
    match command {
        Command::Steps((CommandAction::Get, _)) => if c.steps {
            Request::ReadSteps
        } else {
            Request::Unsupported
        },
        Command::Steps((CommandAction::Put, Some(n))) => if c.steps {
            Request::SetSteps(n)
        } else {
            Request::Unsupported
        },
        Command::Steps((CommandAction::Put, None)) => if c.steps {
            Request::NotImplemented
        } else {
            Request::Unsupported
        },
        Command::Battery => if c.battery {
            Request::ReadBattery
        } else {
            Request::Unsupported
        },
        Command::Heartrate => if c.heartrate {
            Request::MeasureHeartrate
        } else {
            Request::Unsupported
        },
        Command::HeartrateContinuous(enable) => if c.heartrate {
            Request::HeartrateContinuous(enable)
        } else {
            Request::Unsupported
        },
        Command::Name => Request::ReadName,
        _ => Request::NotImplemented,
    }
}

/// Decides what to ask of the device for a command.
pub fn request(command: &Command, c: &Capabilities) -> (r: Request)
    ensures
        r == spec_request(*command, *c),
{
    match command {
        Command::Steps((action, n)) => {
            if !c.steps {
                Request::Unsupported
            } else {
                match action {
                    CommandAction::Get => Request::ReadSteps,
                    CommandAction::Put => match n {
                        Some(n) => Request::SetSteps(*n),
                        None => Request::NotImplemented,
                    },
                }
            }
        },
        Command::Battery => {
            if c.battery {
                Request::ReadBattery
            } else {
                Request::Unsupported
            }
        },
        Command::Heartrate => {
            if c.heartrate {
                Request::MeasureHeartrate
            } else {
                Request::Unsupported
            }
        },
        Command::HeartrateContinuous(enable) => {
            if c.heartrate {
                Request::HeartrateContinuous(*enable)
            } else {
                Request::Unsupported
            }
        },
        Command::Name => Request::ReadName,
        _ => Request::NotImplemented,
    }
}

/// A device without the heart rate is never asked for it.
pub proof fn lemma_absent_capability_is_not_asked(command: Command, c: Capabilities)
    ensures
        !c.heartrate ==> spec_request(command, c) != Request::MeasureHeartrate && !(spec_request(
            command,
            c,
        ) is HeartrateContinuous),
        !c.steps ==> spec_request(command, c) != Request::ReadSteps && !(spec_request(command, c)
            is SetSteps),
        !c.battery ==> spec_request(command, c) != Request::ReadBattery,
{
}

} // verus!
