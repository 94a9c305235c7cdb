//! The 48-byte NTP packet: its fields, its wire form and the two directions
//! between them.

use crate::timestamp::NtpTimestamp;
use vstd::prelude::*;

verus! {

/// Length of an NTP packet on the wire.
pub const PACKET_LEN: usize = 48;

/// Protocol version written into requests.
pub const NTP_VERSION: u8 = 4;

/// Mode number of a client request.
pub const MODE_CLIENT: u8 = 3;

/// First byte of a client request: no leap warning, version 4, client mode.
pub const CLIENT_FLAGS: u8 = 0x23;

/// One NTP packet. Field order is the order on the wire.
#[derive(Clone, Copy, Debug, PartialEq, Eq, Structural)]
pub struct NtpPacket {
    /// Leap indicator (2 bits), version (3 bits) and mode (3 bits).
    pub flags: u8,
    pub stratum: u8,
    pub poll: i8,
    pub precision: i8,
    pub root_delay: u32,
    pub root_dispersion: u32,
    pub reference_id: u32,
    pub reference: NtpTimestamp,
    pub origin: NtpTimestamp,
    pub receive: NtpTimestamp,
    pub transmit: NtpTimestamp,
}

/// The byte that carries a signed 8-bit value in two's complement.
pub open spec fn byte_of_signed(x: i8) -> u8 {
    if x >= 0 {
        x as u8
    } else {
        (x + 256) as u8
    }
}

/// The signed value that a byte carries in two's complement.
pub open spec fn signed_of_byte(b: u8) -> i8 {
    if b < 128 {
        b as i8
    } else {
        (b - 256) as i8
    }
}

/// The four bytes of `x`, most significant first.
pub open spec fn be32(x: u32) -> Seq<u8> {
    seq![
        (x / 0x100_0000) as u8,
        ((x / 0x1_0000) % 0x100) as u8,
        ((x / 0x100) % 0x100) as u8,
        (x % 0x100) as u8,
    ]
}

/// The number whose big-endian bytes stand at `at .. at + 4`.
pub open spec fn be32_at(bytes: Seq<u8>, at: int) -> u32 {
    (bytes[at] * 0x100_0000 + bytes[at + 1] * 0x1_0000 + bytes[at + 2] * 0x100 + bytes[at + 3]) as u32
}

/// The wire form of a timestamp: seconds, and after them the fraction.
pub open spec fn timestamp_wire(t: NtpTimestamp) -> Seq<u8> {
    be32(t.seconds) + be32(t.fraction)
}

/// The timestamp whose wire form stands at `at .. at + 8`.
pub open spec fn timestamp_at(bytes: Seq<u8>, at: int) -> NtpTimestamp {
    NtpTimestamp { seconds: be32_at(bytes, at), fraction: be32_at(bytes, at + 4) }
}

impl NtpPacket {
    /// The 48 bytes of this packet, multi-byte fields big-endian.
    pub open spec fn wire(self) -> Seq<u8> {
        seq![self.flags, self.stratum, byte_of_signed(self.poll), byte_of_signed(self.precision)]
            + be32(self.root_delay) + be32(self.root_dispersion) + be32(self.reference_id)
            + timestamp_wire(self.reference) + timestamp_wire(self.origin) + timestamp_wire(
            self.receive,
        ) + timestamp_wire(self.transmit)
    }

    /// The packet that 48 bytes spell.
    pub open spec fn parse(bytes: Seq<u8>) -> NtpPacket {
        NtpPacket {
            flags: bytes[0],
            stratum: bytes[1],
            poll: signed_of_byte(bytes[2]),
            precision: signed_of_byte(bytes[3]),
            root_delay: be32_at(bytes, 4),
            root_dispersion: be32_at(bytes, 8),
            reference_id: be32_at(bytes, 12),
            reference: timestamp_at(bytes, 16),
            origin: timestamp_at(bytes, 24),
            receive: timestamp_at(bytes, 32),
            transmit: timestamp_at(bytes, 40),
        }
    }

    /// The request a client sends at the instant `transmit`: client flags, the
    /// transmit timestamp, every other field zero.
    pub open spec fn request(transmit: NtpTimestamp) -> NtpPacket {
        NtpPacket {
            flags: CLIENT_FLAGS,
            stratum: 0,
            poll: 0,
            precision: 0,
            root_delay: 0,
            root_dispersion: 0,
            reference_id: 0,
            reference: NtpTimestamp { seconds: 0, fraction: 0 },
            origin: NtpTimestamp { seconds: 0, fraction: 0 },
            receive: NtpTimestamp { seconds: 0, fraction: 0 },
            transmit,
        }
    }

    /// Leap indicator: the two highest bits of the first byte.
    pub open spec fn spec_leap_indicator(self) -> u8 {
        self.flags / 64
    }

    /// Protocol version: the three bits below the leap indicator.
    pub open spec fn spec_version(self) -> u8 {
        (self.flags / 8) % 8
    }

    /// Association mode: the three lowest bits of the first byte.
    pub open spec fn spec_mode(self) -> u8 {
        self.flags % 8
    }

    /// Builds the request a client sends at the instant `transmit`.
    pub fn client_request(transmit: NtpTimestamp) -> (r: NtpPacket)
        ensures
            r == NtpPacket::request(transmit),
            r.spec_leap_indicator() == 0,
            r.spec_version() == NTP_VERSION,
            r.spec_mode() == MODE_CLIENT,
    {
        let zero = NtpTimestamp { seconds: 0, fraction: 0 };
        NtpPacket {
            flags: CLIENT_FLAGS,
            stratum: 0,
            poll: 0,
            precision: 0,
            root_delay: 0,
            root_dispersion: 0,
            reference_id: 0,
            reference: zero,
            origin: zero,
            receive: zero,
            transmit,
        }
    }

    /// Serialises the packet to its 48 bytes, from which `decode` reads the
    /// same packet back.
    pub fn encode(&self) -> (bytes: Vec<u8>)
        ensures
            bytes@ == self.wire(),
            bytes@.len() == PACKET_LEN,
            NtpPacket::parse(bytes@) == *self,
    {
        proof {
            lemma_parse_wire(*self);
        }
        let mut bytes: Vec<u8> = Vec::with_capacity(PACKET_LEN);
        bytes.push(self.flags);
        bytes.push(self.stratum);
        bytes.push(signed_to_byte(self.poll));
        bytes.push(signed_to_byte(self.precision));
        push_be32(&mut bytes, self.root_delay);
        push_be32(&mut bytes, self.root_dispersion);
        push_be32(&mut bytes, self.reference_id);
        push_timestamp(&mut bytes, self.reference);
        push_timestamp(&mut bytes, self.origin);
        push_timestamp(&mut bytes, self.receive);
        push_timestamp(&mut bytes, self.transmit);
        assert(bytes@ =~= self.wire());
        bytes
    }

    /// Reads a packet from a datagram. A datagram of any length but 48 bytes
    /// holds no packet; every datagram of 48 bytes holds exactly one, and
    /// `encode` writes the same bytes for it.
    pub fn decode(bytes: &[u8]) -> (r: Option<NtpPacket>)
        ensures
            r == if bytes@.len() == PACKET_LEN {
                Some(NtpPacket::parse(bytes@))
            } else {
                None
            },
            r matches Some(p) ==> p.wire() == bytes@,
    {
        if bytes.len() != PACKET_LEN {
            return None;
        }
        proof {
            lemma_wire_parse(bytes@);
        }
        Some(
            NtpPacket {
                flags: bytes[0],
                stratum: bytes[1],
                poll: byte_to_signed(bytes[2]),
                precision: byte_to_signed(bytes[3]),
                root_delay: read_be32(bytes, 4),
                root_dispersion: read_be32(bytes, 8),
                reference_id: read_be32(bytes, 12),
                reference: read_timestamp(bytes, 16),
                origin: read_timestamp(bytes, 24),
                receive: read_timestamp(bytes, 32),
                transmit: read_timestamp(bytes, 40),
            },
        )
    }

    /// Leap indicator of the packet.
    pub fn leap_indicator(&self) -> (r: u8)
        ensures
            r == self.spec_leap_indicator(),
            r < 4,
    {
        self.flags / 64
    }

    /// Protocol version of the packet.
    pub fn version(&self) -> (r: u8)
        ensures
            r == self.spec_version(),
            r < 8,
    {
        (self.flags / 8) % 8
    }

    /// Association mode of the packet.
    pub fn mode(&self) -> (r: u8)
        ensures
            r == self.spec_mode(),
            r < 8,
    {
        self.flags % 8
    }
}

/// A signed value as the byte that carries it.
fn signed_to_byte(x: i8) -> (b: u8)
    ensures
        b == byte_of_signed(x),
{
    if x >= 0 {
        x as u8
    } else {
        (x as i16 + 256) as u8
    }
}

/// A byte as the signed value it carries.
fn byte_to_signed(b: u8) -> (x: i8)
    ensures
        x == signed_of_byte(b),
{
    if b < 128 {
        b as i8
    } else {
        (b as i16 - 256) as i8
    }
}

/// Appends the four bytes of `x`, most significant first.
fn push_be32(bytes: &mut Vec<u8>, x: u32)
    ensures
        final(bytes)@ == old(bytes)@ + be32(x),
{
    bytes.push((x / 0x100_0000) as u8);
    bytes.push(((x / 0x1_0000) % 0x100) as u8);
    bytes.push(((x / 0x100) % 0x100) as u8);
    bytes.push((x % 0x100) as u8);
    assert(bytes@ =~= old(bytes)@ + be32(x));
}

/// Appends the eight bytes of a timestamp.
fn push_timestamp(bytes: &mut Vec<u8>, t: NtpTimestamp)
    ensures
        final(bytes)@ == old(bytes)@ + timestamp_wire(t),
{
    push_be32(bytes, t.seconds);
    push_be32(bytes, t.fraction);
    assert(bytes@ =~= old(bytes)@ + timestamp_wire(t));
}

/// Reads the big-endian number at `at .. at + 4`.
fn read_be32(bytes: &[u8], at: usize) -> (x: u32)
    requires
        bytes@.len() == PACKET_LEN,
        at + 4 <= PACKET_LEN,
    ensures
        x == be32_at(bytes@, at as int),
{
    let b0: u32 = bytes[at] as u32;
    let b1: u32 = bytes[at + 1] as u32;
    let b2: u32 = bytes[at + 2] as u32;
    let b3: u32 = bytes[at + 3] as u32;
    b0 * 0x100_0000 + b1 * 0x1_0000 + b2 * 0x100 + b3
}

/// Reads the timestamp at `at .. at + 8`.
fn read_timestamp(bytes: &[u8], at: usize) -> (t: NtpTimestamp)
    requires
        bytes@.len() == PACKET_LEN,
        at + 8 <= PACKET_LEN,
    ensures
        t == timestamp_at(bytes@, at as int),
{
    NtpTimestamp { seconds: read_be32(bytes, at), fraction: read_be32(bytes, at + 4) }
}

/// The four bytes of a number spell that number.
pub proof fn lemma_be32_roundtrip(x: u32)
    ensures
        be32(x).len() == 4,
        be32_at(be32(x), 0) == x,
{
}

/// A signed byte survives the trip through its unsigned carrier, both ways.
pub proof fn lemma_signed_byte_roundtrip(x: i8, b: u8)
    ensures
        signed_of_byte(byte_of_signed(x)) == x,
        byte_of_signed(signed_of_byte(b)) == b,
{
}

/// The wire form of every packet is 48 bytes long.
pub proof fn lemma_wire_len(p: NtpPacket)
    ensures
        p.wire().len() == PACKET_LEN,
{
}

/// The `k`-th four-byte piece behind the four-byte head of `s`.
spec fn piece(s: Seq<u8>, k: int) -> Seq<u8> {
    s.subrange(4 + 4 * k, 8 + 4 * k)
}

/// A head and eleven pieces, put together as the packet groups them.
spec fn assemble(h: Seq<u8>, f: Seq<Seq<u8>>) -> Seq<u8> {
    h + f[0] + f[1] + f[2] + (f[3] + f[4]) + (f[5] + f[6]) + (f[7] + f[8]) + (f[9] + f[10])
}

/// The four single bytes that open a packet.
spec fn head(p: NtpPacket) -> Seq<u8> {
    seq![p.flags, p.stratum, byte_of_signed(p.poll), byte_of_signed(p.precision)]
}

/// The four-byte fields of a packet, in wire order.
spec fn fields(p: NtpPacket) -> Seq<Seq<u8>> {
    seq![
        be32(p.root_delay),
        be32(p.root_dispersion),
        be32(p.reference_id),
        be32(p.reference.seconds),
        be32(p.reference.fraction),
        be32(p.origin.seconds),
        be32(p.origin.fraction),
        be32(p.receive.seconds),
        be32(p.receive.fraction),
        be32(p.transmit.seconds),
        be32(p.transmit.fraction),
    ]
}

/// Where head and pieces lie in what they are put together to.
proof fn lemma_layout(h: Seq<u8>, f: Seq<Seq<u8>>)
    requires
        h.len() == 4,
        f.len() == 11,
        forall|k: int| 0 <= k < 11 ==> (#[trigger] f[k]).len() == 4,
    ensures
        assemble(h, f).len() == 48,
        assemble(h, f).subrange(0, 4) == h,
        forall|k: int| 0 <= k < 11 ==> #[trigger] piece(assemble(h, f), k) == f[k],
{
    let w = assemble(h, f);
    assert(f[0].len() == 4 && f[1].len() == 4 && f[2].len() == 4 && f[3].len() == 4);
    assert(f[4].len() == 4 && f[5].len() == 4 && f[6].len() == 4 && f[7].len() == 4);
    assert(f[8].len() == 4 && f[9].len() == 4 && f[10].len() == 4);
    assert(w.subrange(0, 4) =~= h);
    assert(piece(w, 0) =~= f[0]);
    assert(piece(w, 1) =~= f[1]);
    assert(piece(w, 2) =~= f[2]);
    assert(piece(w, 3) =~= f[3]);
    assert(piece(w, 4) =~= f[4]);
    assert(piece(w, 5) =~= f[5]);
    assert(piece(w, 6) =~= f[6]);
    assert(piece(w, 7) =~= f[7]);
    assert(piece(w, 8) =~= f[8]);
    assert(piece(w, 9) =~= f[9]);
    assert(piece(w, 10) =~= f[10]);
}

/// The wire form of a packet is its head and fields put together.
proof fn lemma_wire_assembles(p: NtpPacket)
    ensures
        p.wire() == assemble(head(p), fields(p)),
        head(p).len() == 4,
        fields(p).len() == 11,
        forall|k: int| 0 <= k < 11 ==> (#[trigger] fields(p)[k]).len() == 4,
{
}

/// Where the four bytes of `x` stand as a piece of `w`, `x` is read back.
proof fn lemma_field_at(w: Seq<u8>, k: int, x: u32)
    requires
        0 <= k,
        8 + 4 * k <= w.len(),
        piece(w, k) == be32(x),
    ensures
        be32_at(w, 4 + 4 * k) == x,
{
    let at: int = 4 + 4 * k;
    let part = w.subrange(at, at + 4);
    assert(part[0] == w[at]);
    assert(part[1] == w[at + 1]);
    assert(part[2] == w[at + 2]);
    assert(part[3] == w[at + 3]);
}

/// Four base-256 digits are recovered from the number they spell.
proof fn lemma_digits(b0: int, b1: int, b2: int, b3: int)
    requires
        0 <= b0 < 256,
        0 <= b1 < 256,
        0 <= b2 < 256,
        0 <= b3 < 256,
    ensures
        ({
            let x = b0 * 0x100_0000 + b1 * 0x1_0000 + b2 * 0x100 + b3;
            &&& 0 <= x < 0x1_0000_0000
            &&& x / 0x100_0000 == b0
            &&& (x / 0x1_0000) % 0x100 == b1
            &&& (x / 0x100) % 0x100 == b2
            &&& x % 0x100 == b3
        }),
{
    let x = b0 * 0x100_0000 + b1 * 0x1_0000 + b2 * 0x100 + b3;
    assert(x / 0x100_0000 == b0);
    assert(x / 0x1_0000 == b0 * 0x100 + b1);
    assert(x / 0x100 == b0 * 0x1_0000 + b1 * 0x100 + b2);
}

/// A piece of `w` is the four bytes of the number read there.
proof fn lemma_bytes_at(w: Seq<u8>, k: int)
    requires
        0 <= k,
        8 + 4 * k <= w.len(),
    ensures
        be32(be32_at(w, 4 + 4 * k)) == piece(w, k),
{
    let at: int = 4 + 4 * k;
    lemma_digits(w[at] as int, w[at + 1] as int, w[at + 2] as int, w[at + 3] as int);
    assert(be32(be32_at(w, at)) =~= w.subrange(at, at + 4));
}

/// Parsing the wire form of a packet gives the packet back.
pub proof fn lemma_parse_wire(p: NtpPacket)
    ensures
        NtpPacket::parse(p.wire()) == p,
{
    let w = p.wire();
    let h = head(p);
    let f = fields(p);
    lemma_wire_assembles(p);
    lemma_layout(h, f);
    assert(w[0] == h[0] && w[1] == h[1] && w[2] == h[2] && w[3] == h[3]) by {
        let part = w.subrange(0, 4);
        assert(part[0] == w[0] && part[1] == w[1] && part[2] == w[2] && part[3] == w[3]);
    }
    lemma_signed_byte_roundtrip(p.poll, 0);
    lemma_signed_byte_roundtrip(p.precision, 0);
    assert forall|k: int| 0 <= k < 11 implies #[trigger] piece(w, k) == f[k] by {}
    lemma_field_at(w, 0, p.root_delay);
    lemma_field_at(w, 1, p.root_dispersion);
    lemma_field_at(w, 2, p.reference_id);
    lemma_field_at(w, 3, p.reference.seconds);
    lemma_field_at(w, 4, p.reference.fraction);
    lemma_field_at(w, 5, p.origin.seconds);
    lemma_field_at(w, 6, p.origin.fraction);
    lemma_field_at(w, 7, p.receive.seconds);
    lemma_field_at(w, 8, p.receive.fraction);
    lemma_field_at(w, 9, p.transmit.seconds);
    lemma_field_at(w, 10, p.transmit.fraction);
}

/// Two 48-byte sequences that agree on the head and on each of the eleven
/// pieces behind it are equal.
proof fn lemma_same_pieces(w: Seq<u8>, bytes: Seq<u8>)
    requires
        w.len() == 48,
        bytes.len() == 48,
        w.subrange(0, 4) == bytes.subrange(0, 4),
        forall|k: int| 0 <= k < 11 ==> #[trigger] piece(w, k) == piece(bytes, k),
    ensures
        w == bytes,
{
    assert forall|i: int| 0 <= i < 48 implies w[i] == bytes[i] by {
        if i < 4 {
            assert(w.subrange(0, 4)[i] == w[i]);
            assert(bytes.subrange(0, 4)[i] == bytes[i]);
        } else {
            let k: int = (i - 4) / 4;
            let j: int = i - 4 - 4 * k;
            assert(0 <= k < 11 && 0 <= j < 4);
            assert(piece(w, k) == piece(bytes, k));
            assert(piece(w, k)[j] == w[4 + 4 * k + j]);
            assert(piece(bytes, k)[j] == bytes[4 + 4 * k + j]);
            assert(4 + 4 * k + j == i);
        }
    }
    assert(w =~= bytes);
}

/// Head and fields of the packet that 48 bytes spell are the pieces of
/// those bytes.
proof fn lemma_pieces_of_parse(bytes: Seq<u8>)
    requires
        bytes.len() == 48,
    ensures
        head(NtpPacket::parse(bytes)) == bytes.subrange(0, 4),
        forall|k: int| 0 <= k < 11 ==> #[trigger] fields(NtpPacket::parse(bytes))[k] == piece(bytes, k),
{
    let p = NtpPacket::parse(bytes);
    let f = fields(p);
    lemma_signed_byte_roundtrip(0, bytes[2]);
    lemma_signed_byte_roundtrip(0, bytes[3]);
    assert(head(p) =~= bytes.subrange(0, 4));
    assert(f[0] == piece(bytes, 0)) by {
        lemma_bytes_at(bytes, 0);
    }
    assert(f[1] == piece(bytes, 1)) by {
        lemma_bytes_at(bytes, 1);
    }
    assert(f[2] == piece(bytes, 2)) by {
        lemma_bytes_at(bytes, 2);
    }
    assert(f[3] == piece(bytes, 3)) by {
        lemma_bytes_at(bytes, 3);
    }
    assert(f[4] == piece(bytes, 4)) by {
        lemma_bytes_at(bytes, 4);
    }
    assert(f[5] == piece(bytes, 5)) by {
        lemma_bytes_at(bytes, 5);
    }
    assert(f[6] == piece(bytes, 6)) by {
        lemma_bytes_at(bytes, 6);
    }
    assert(f[7] == piece(bytes, 7)) by {
        lemma_bytes_at(bytes, 7);
    }
    assert(f[8] == piece(bytes, 8)) by {
        lemma_bytes_at(bytes, 8);
    }
    assert(f[9] == piece(bytes, 9)) by {
        lemma_bytes_at(bytes, 9);
    }
    assert(f[10] == piece(bytes, 10)) by {
        lemma_bytes_at(bytes, 10);
    }
}

/// A packet whose head and fields are the pieces of 48 bytes has those
/// bytes as its wire form.
proof fn lemma_wire_of_pieces(p: NtpPacket, bytes: Seq<u8>)
    requires
        bytes.len() == 48,
        head(p) == bytes.subrange(0, 4),
        forall|k: int| 0 <= k < 11 ==> #[trigger] fields(p)[k] == piece(bytes, k),
    ensures
        p.wire() == bytes,
{
    let w = p.wire();
    lemma_wire_assembles(p);
    lemma_layout(head(p), fields(p));
    assert forall|k: int| 0 <= k < 11 implies #[trigger] piece(w, k) == piece(bytes, k) by {
        assert(piece(w, k) == fields(p)[k]);
    }
    lemma_same_pieces(w, bytes);
}

/// The wire form of the packet that 48 bytes spell is those 48 bytes.
pub proof fn lemma_wire_parse(bytes: Seq<u8>)
    requires
        bytes.len() == PACKET_LEN,
    ensures
        NtpPacket::parse(bytes).wire() == bytes,
{
    lemma_pieces_of_parse(bytes);
    lemma_wire_of_pieces(NtpPacket::parse(bytes), bytes);
}

} // verus!
