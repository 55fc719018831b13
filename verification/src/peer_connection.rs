//! The plain values that go to and come from a peer connection of the media
//! layer: send rates, audio levels, the transport of a server candidate,
//! and the outcome of an operation.

use vstd::prelude::*;

verus! {

/// A data rate in bits per second.
#[derive(Clone, Copy, Debug, PartialEq, Eq, Structural)]
pub struct DataRate {
    pub bps: u64,
}

impl DataRate {
    pub fn from_bps(bps: u64) -> (rate: Self)
        ensures
            rate.bps == bps,
    {
        DataRate { bps }
    }

    pub fn as_bps(&self) -> (bps: u64)
        ensures
            bps == self.bps,
    {
        self.bps
    }
}

/// The rates between which the media layer may send. A rate that is not set
/// leaves the media layer's own choice in place.
#[derive(Clone, Copy, Debug, PartialEq, Eq, Structural)]
pub struct SendRates {
    pub min: Option<DataRate>,
    pub start: Option<DataRate>,
    pub max: Option<DataRate>,
}

/// The number that stands for a rate that is not set.
pub const RATE_NOT_SET: i32 = -1;

/// The number handed to the media layer for a rate: its bits per second
/// reduced to a signed 32-bit value, or `RATE_NOT_SET`.
pub open spec fn spec_rate_as_bps(rate: Option<DataRate>) -> i32 {
    match rate {
        Some(rate) => rate.bps as i32,
        None => RATE_NOT_SET,
    }
}

/// The number handed to the media layer for a rate.
pub fn rate_as_bps(rate: Option<DataRate>) -> (bps: i32)
    ensures
        bps == spec_rate_as_bps(rate),
{
    match rate {
        Some(rate) => #[verifier::truncate]
        (rate.as_bps() as i32),
        None => RATE_NOT_SET,
    }
}

impl SendRates {
    /// No rate set.
    pub fn unset() -> (rates: Self)
        ensures
            rates.min is None,
            rates.start is None,
            rates.max is None,
    {
        SendRates { min: None, start: None, max: None }
    }

    /// The three numbers handed to the media layer: minimum, start and
    /// maximum.
    pub fn as_bps(&self) -> (numbers: (i32, i32, i32))
        ensures
            numbers == (
                spec_rate_as_bps(self.min),
                spec_rate_as_bps(self.start),
                spec_rate_as_bps(self.max),
            ),
    {
        (rate_as_bps(self.min), rate_as_bps(self.start), rate_as_bps(self.max))
    }
}

impl Default for SendRates {
    fn default() -> (rates: Self)
        ensures
            rates.min is None,
            rates.start is None,
            rates.max is None,
    {
        SendRates::unset()
    }
}

/// One audio level sample as the media layer gives it.
pub type RffiAudioLevel = u16;

/// The audio level received from one remote participant.
#[derive(Clone, Copy, Debug, PartialEq, Eq, Structural)]
pub struct RffiReceivedAudioLevel {
    pub demux_id: u32,
    pub level: RffiAudioLevel,
}

/// The audio level received from one remote participant.
pub type ReceivedAudioLevel = RffiReceivedAudioLevel;

/// The transport over which a server is reached.
#[derive(Clone, Copy, Debug)]
pub enum Protocol<'a> {
    Udp,
    Tcp,
    /// TLS over TCP, with the name the server's certificate must carry.
    Tls(&'a str),
}

impl<'a> Protocol<'a> {
    /// Whether the transport runs over TCP.
    pub open spec fn spec_is_tcp(self) -> bool {
        !(self is Udp)
    }

    /// Whether the transport runs over TCP.
    pub fn is_tcp(&self) -> (tcp: bool)
        ensures
            tcp == self.spec_is_tcp(),
    {
        match self {
            Protocol::Udp => false,
            Protocol::Tcp => true,
            Protocol::Tls(_) => true,
        }
    }

    /// The server name to check, which only TLS has.
    pub fn hostname(&self) -> (name: Option<&'a str>)
        ensures
            name is Some <==> self is Tls,
            name matches Some(n) ==> *self matches Protocol::Tls(host) && n@ == host@,
    {
        match self {
            Protocol::Tls(hostname) => Some(*hostname),
            _ => None,
        }
    }
}

/// The operations of a peer connection that can fail.
#[derive(Clone, Copy, Debug, PartialEq, Eq, Structural)]
pub enum PeerConnectionError {
    UpdateTransceivers,
    AddIceCandidate,
    CreateIceGatherer,
    UseIceGatherer,
    SendRtp,
    ReceiveRtp,
}

/// The outcome of an operation from the success flag that the media layer
/// returned: the operation's own error exactly where the flag is false.
pub fn operation_outcome(succeeded: bool, failure: PeerConnectionError) -> (outcome: Result<
    (),
    PeerConnectionError,
>)
    ensures
        outcome is Ok <==> succeeded,
        outcome matches Err(e) ==> e == failure,
{
    if succeeded {
        Ok(())
    } else {
        Err(failure)
    }
}

} // verus!
