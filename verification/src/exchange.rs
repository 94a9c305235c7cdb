//! One request and one reply: what is sent, which replies are accepted, and
//! the roundtrip and offset that an accepted reply gives.
//!
//! Four instants take part: `t0`, the local clock when the request leaves;
//! `t1` and `t2`, the server's clock when the request arrives and when the
//! reply leaves; `t3`, the local clock when the reply arrives. All four are
//! whole microseconds since the Unix epoch.

use crate::endpoint::Endpoint;
use crate::packet::{lemma_parse_wire, NtpPacket, PACKET_LEN};
use crate::sample::TimeSample;
use crate::timestamp::{NtpTimestamp, Timestamp};
use vstd::prelude::*;

verus! {

/// How far below zero a computed roundtrip may fall, in microseconds, and
/// still count as clock jitter. Such a roundtrip is reported as zero; one
/// further below is a protocol error.
pub const ROUNDTRIP_TOLERANCE_MICROS: i64 = 1_000;

/// Why an exchange gave no sample.
#[derive(Clone, Copy, Debug, PartialEq, Eq, Structural)]
pub enum ExchangeError {
    /// The transport could not send or receive.
    Network,
    /// No reply came within the time allowed.
    Timeout,
    /// A reply came and was not acceptable.
    Protocol,
}

/// What a transport reports when it has no datagram to hand over.
#[derive(Clone, Copy, Debug, PartialEq, Eq, Structural)]
pub enum TransportError {
    /// The time allowed ran out.
    TimedOut,
    /// Anything else went wrong.
    Failed,
}

/// The local wall clock.
pub trait TimestampSource {
    /// Reads the clock.
    fn now(&mut self) -> Timestamp;
}

/// Datagrams to and from a server.
pub trait Transport {
    /// Sends one datagram to the endpoint and says how many bytes left.
    fn send(&mut self, endpoint: &Endpoint, datagram: &[u8]) -> Result<usize, TransportError>;

    /// Waits for one datagram from the endpoint, no longer than the endpoint's
    /// timeout.
    fn receive_with_timeout(&mut self, endpoint: &Endpoint) -> Result<Vec<u8>, TransportError>;
}

/// Time on the network: the whole exchange less the server's own time.
pub open spec fn raw_roundtrip(t0: int, t1: int, t2: int, t3: int) -> int {
    (t3 - t0) - (t2 - t1)
}

/// Half of `x`, rounded toward zero.
pub open spec fn half_toward_zero(x: int) -> int {
    if x >= 0 {
        x / 2
    } else {
        -((-x) / 2)
    }
}

/// Server clock minus local clock: the mean of the two one-way differences,
/// rounded toward zero.
pub open spec fn clock_offset(t0: int, t1: int, t2: int, t3: int) -> int {
    half_toward_zero((t1 - t0) + (t2 - t3))
}

/// The roundtrip reported for a raw value: zero for one that is negative
/// within the tolerance, none for one below it.
pub open spec fn settled_roundtrip(raw: int) -> Option<int> {
    if raw < -ROUNDTRIP_TOLERANCE_MICROS {
        None
    } else if raw < 0 {
        Some(0)
    } else {
        Some(raw)
    }
}

/// The raw roundtrip of a reply `p` to a request sent at `t0` and answered at `t3`.
pub open spec fn reply_roundtrip(t0: Timestamp, p: NtpPacket, t3: Timestamp) -> int {
    raw_roundtrip(
        t0.unix_micros(),
        p.receive.unix_micros(),
        p.transmit.unix_micros(),
        t3.unix_micros(),
    )
}

/// The clock offset that a reply `p` gives.
pub open spec fn reply_offset(t0: Timestamp, p: NtpPacket, t3: Timestamp) -> int {
    clock_offset(
        t0.unix_micros(),
        p.receive.unix_micros(),
        p.transmit.unix_micros(),
        t3.unix_micros(),
    )
}

/// Whether `reply` is an acceptable answer to the request sent at `t0`: it is
/// 48 bytes long, echoes the request's transmit timestamp as its origin, has
/// a stratum other than zero, and its roundtrip is not below the tolerance.
pub open spec fn acceptable(t0: Timestamp, reply: Seq<u8>, t3: Timestamp) -> bool {
    &&& reply.len() == PACKET_LEN
    &&& NtpPacket::parse(reply).origin == t0.ntp()
    &&& NtpPacket::parse(reply).stratum != 0
    &&& reply_roundtrip(t0, NtpPacket::parse(reply), t3) >= -ROUNDTRIP_TOLERANCE_MICROS
}

/// The sample that an acceptable reply `p` gives: the server's transmit time,
/// the roundtrip with a negative value raised to zero, and the offset.
pub open spec fn sample_of(t0: Timestamp, p: NtpPacket, t3: Timestamp) -> TimeSample {
    TimeSample {
        seconds: p.transmit.unix_seconds() as u32,
        seconds_fraction: p.transmit.fraction,
        roundtrip_micros: (if reply_roundtrip(t0, p, t3) < 0 {
            0
        } else {
            reply_roundtrip(t0, p, t3)
        }) as u64,
        offset_micros: reply_offset(t0, p, t3) as i64,
    }
}

/// What a received datagram leads to.
pub open spec fn response_outcome(t0: Timestamp, reply: Seq<u8>, t3: Timestamp) -> Result<
    TimeSample,
    ExchangeError,
> {
    if acceptable(t0, reply, t3) {
        Ok(sample_of(t0, NtpPacket::parse(reply), t3))
    } else {
        Err(ExchangeError::Protocol)
    }
}

/// What the transport's answer to a send leads to: only a send of all 48
/// bytes lets the exchange go on.
pub open spec fn send_outcome(sent: Result<usize, TransportError>) -> Result<(), ExchangeError> {
    if sent == Ok::<usize, TransportError>(PACKET_LEN) {
        Ok(())
    } else {
        Err(ExchangeError::Network)
    }
}

/// What the transport's answer to a receive leads to.
pub open spec fn receive_outcome(
    t0: Timestamp,
    received: Result<Seq<u8>, TransportError>,
    t3: Timestamp,
) -> Result<TimeSample, ExchangeError> {
    match received {
        Ok(reply) => response_outcome(t0, reply, t3),
        Err(TransportError::TimedOut) => Err(ExchangeError::Timeout),
        Err(TransportError::Failed) => Err(ExchangeError::Network),
    }
}

/// The request packet for an exchange that starts at `sent_at`.
pub fn request_packet(sent_at: Timestamp) -> (r: NtpPacket)
    ensures
        r == NtpPacket::request(sent_at.ntp()),
{
    NtpPacket::client_request(sent_at.to_ntp())
}

/// The 48 bytes to send for an exchange that starts at `sent_at`.
pub fn request_datagram(sent_at: Timestamp) -> (bytes: Vec<u8>)
    ensures
        bytes@ == NtpPacket::request(sent_at.ntp()).wire(),
        bytes@.len() == PACKET_LEN,
        NtpPacket::parse(bytes@) == NtpPacket::request(sent_at.ntp()),
{
    request_packet(sent_at).encode()
}

/// Roundtrip in microseconds from the four instants of an exchange. A value
/// that is negative within the tolerance is reported as zero; for one below
/// it there is no roundtrip.
pub fn roundtrip_micros(
    sent_at: Timestamp,
    server_received: NtpTimestamp,
    server_sent: NtpTimestamp,
    received_at: Timestamp,
) -> (r: Option<u64>)
    ensures
        settled_roundtrip(
            raw_roundtrip(
                sent_at.unix_micros(),
                server_received.unix_micros(),
                server_sent.unix_micros(),
                received_at.unix_micros(),
            ),
        ) == match r {
            Some(d) => Some(d as int),
            None => None::<int>,
        },
{
    let t0: i64 = sent_at.as_unix_micros() as i64;
    let t1: i64 = server_received.as_unix_micros() as i64;
    let t2: i64 = server_sent.as_unix_micros() as i64;
    let t3: i64 = received_at.as_unix_micros() as i64;
    let raw: i64 = (t3 - t0) - (t2 - t1);
    if raw < -ROUNDTRIP_TOLERANCE_MICROS {
        None
    } else if raw < 0 {
        Some(0)
    } else {
        Some(raw as u64)
    }
}

/// Clock offset in microseconds from the four instants of an exchange.
pub fn offset_micros(
    sent_at: Timestamp,
    server_received: NtpTimestamp,
    server_sent: NtpTimestamp,
    received_at: Timestamp,
) -> (r: i64)
    ensures
        r == clock_offset(
            sent_at.unix_micros(),
            server_received.unix_micros(),
            server_sent.unix_micros(),
            received_at.unix_micros(),
        ),
{
    let t0: i64 = sent_at.as_unix_micros() as i64;
    let t1: i64 = server_received.as_unix_micros() as i64;
    let t2: i64 = server_sent.as_unix_micros() as i64;
    let t3: i64 = received_at.as_unix_micros() as i64;
    let sum: i64 = (t1 - t0) + (t2 - t3);
    if sum >= 0 {
        sum / 2
    } else {
        -((-sum) / 2)
    }
}

/// Judges a received datagram and computes the sample it gives.
pub fn process_response(sent_at: Timestamp, reply: &[u8], received_at: Timestamp) -> (r: Result<
    TimeSample,
    ExchangeError,
>)
    ensures
        r == response_outcome(sent_at, reply@, received_at),
{
    let packet = match NtpPacket::decode(reply) {
        Some(p) => p,
        None => {
            return Err(ExchangeError::Protocol);
        },
    };
    if packet.origin != sent_at.to_ntp() {
        return Err(ExchangeError::Protocol);
    }
    if packet.stratum == 0 {
        return Err(ExchangeError::Protocol);
    }
    let roundtrip = match roundtrip_micros(sent_at, packet.receive, packet.transmit, received_at) {
        Some(d) => d,
        None => {
            return Err(ExchangeError::Protocol);
        },
    };
    Ok(
        TimeSample {
            seconds: packet.transmit.to_unix_seconds(),
            seconds_fraction: packet.transmit.fraction,
            roundtrip_micros: roundtrip,
            offset_micros: offset_micros(sent_at, packet.receive, packet.transmit, received_at),
        },
    )
}

/// Judges the transport's answer to a send.
pub fn check_sent(sent: Result<usize, TransportError>) -> (r: Result<(), ExchangeError>)
    ensures
        r == send_outcome(sent),
{
    match sent {
        Ok(n) => {
            if n == PACKET_LEN {
                Ok(())
            } else {
                Err(ExchangeError::Network)
            }
        },
        Err(_) => Err(ExchangeError::Network),
    }
}

/// Judges the transport's answer to a receive, for a request sent at
/// `sent_at` and an answer taken at `received_at`.
pub fn conclude(
    sent_at: Timestamp,
    received: Result<Vec<u8>, TransportError>,
    received_at: Timestamp,
) -> (r: Result<TimeSample, ExchangeError>)
    ensures
        r == receive_outcome(
            sent_at,
            match received {
                Ok(bytes) => Ok(bytes@),
                Err(e) => Err(e),
            },
            received_at,
        ),
{
    match received {
        Ok(bytes) => process_response(sent_at, bytes.as_slice(), received_at),
        Err(TransportError::TimedOut) => Err(ExchangeError::Timeout),
        Err(TransportError::Failed) => Err(ExchangeError::Network),
    }
}

/// Runs one exchange: reads the clock, sends the request, waits for the
/// reply, reads the clock again and judges what came.
///
/// Clock and transport decide what comes back. Whatever they do, a sample is
/// returned only for a reply that is acceptable for the request sent.
pub fn exchange<C: TimestampSource, T: Transport>(
    endpoint: &Endpoint,
    clock: &mut C,
    transport: &mut T,
) -> (r: Result<TimeSample, ExchangeError>)
    ensures
        r matches Ok(sample) ==> exists|t0: Timestamp, reply: Seq<u8>, t3: Timestamp|
            acceptable(t0, reply, t3) && sample == #[trigger] sample_of(
                t0,
                NtpPacket::parse(reply),
                t3,
            ),
{
    let sent_at = clock.now();
    let datagram = request_datagram(sent_at);
    let sent = transport.send(endpoint, datagram.as_slice());
    match check_sent(sent) {
        Ok(()) => {},
        Err(e) => {
            return Err(e);
        },
    }
    let received = transport.receive_with_timeout(endpoint);
    let received_at = clock.now();
    let ghost reply: Seq<u8> = if received is Ok {
        received->Ok_0@
    } else {
        Seq::empty()
    };
    let r = conclude(sent_at, received, received_at);
    proof {
        if r is Ok {
            assert(acceptable(sent_at, reply, received_at));
            assert(r->Ok_0 == sample_of(sent_at, NtpPacket::parse(reply), received_at));
        }
    }
    r
}

/// Every acceptable reply gives a sample. Its origin is the transmit
/// timestamp that the request datagram carries, and the sample holds the
/// server's transmit time, a roundtrip that is not negative and equals the
/// computed one wherever that is not negative, and the computed offset.
pub proof fn lemma_acceptable_reply_gives_sample(t0: Timestamp, reply: Seq<u8>, t3: Timestamp)
    requires
        acceptable(t0, reply, t3),
    ensures
        response_outcome(t0, reply, t3) is Ok,
        NtpPacket::parse(reply).origin == NtpPacket::parse(
            NtpPacket::request(t0.ntp()).wire(),
        ).transmit,
        ({
            let p = NtpPacket::parse(reply);
            let sample = response_outcome(t0, reply, t3)->Ok_0;
            &&& sample.seconds == p.transmit.unix_seconds()
            &&& sample.seconds_fraction == p.transmit.fraction
            &&& sample.roundtrip_micros >= 0
            &&& reply_roundtrip(t0, p, t3) >= 0 ==> sample.roundtrip_micros == reply_roundtrip(
                t0,
                p,
                t3,
            )
            &&& reply_roundtrip(t0, p, t3) < 0 ==> sample.roundtrip_micros == 0
            &&& sample.offset_micros == reply_offset(t0, p, t3)
        }),
{
    lemma_parse_wire(NtpPacket::request(t0.ntp()));
}

/// A reply whose origin is not the transmit timestamp of the request is a
/// protocol error, whatever else it holds.
pub proof fn lemma_mismatched_origin_is_refused(t0: Timestamp, reply: Seq<u8>, t3: Timestamp)
    requires
        NtpPacket::parse(reply).origin != t0.ntp(),
    ensures
        response_outcome(t0, reply, t3) == Err::<TimeSample, ExchangeError>(ExchangeError::Protocol),
{
}

/// A reply of stratum zero, and a datagram that is not 48 bytes long, are
/// protocol errors.
pub proof fn lemma_malformed_reply_is_refused(t0: Timestamp, reply: Seq<u8>, t3: Timestamp)
    requires
        reply.len() != PACKET_LEN || NtpPacket::parse(reply).stratum == 0,
    ensures
        response_outcome(t0, reply, t3) == Err::<TimeSample, ExchangeError>(ExchangeError::Protocol),
{
}

} // verus!
