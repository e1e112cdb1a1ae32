//! The legacy binary trace format: a 24-byte file header followed by
//! length-prefixed packet records. The first four bytes, read little-endian,
//! pick the byte order and the sub-second unit for the whole file.
//!
//! The byte-level layout is written down once, as spec functions, and
//! `parse_pcap_file` is proved to return exactly what they describe.

use vstd::prelude::*;

use crate::model::Error;

verus! {

/// The magic value that, read little-endian, selects little-endian fields
/// with microsecond fractions.
pub const MAGIC_LE_MICROS: u32 = 0xA1B2_C3D4;

/// The canonical magic value of the other variant: big-endian fields with
/// nanosecond fractions.
pub const MAGIC_BE_NANOS: u32 = 0xA1B2_3C4D;

/// Bytes in the fixed file header.
pub const PCAP_HEADER_LENGTH: usize = 24;

/// Bytes in the fixed part of a packet record, before its payload.
pub const PCAP_RECORD_FIXED_LENGTH: usize = 16;

/// The file's variant: byte order of every multi-byte field, and the unit
/// of the sub-second timestamp fraction.
#[derive(Copy, Clone, Debug, PartialEq, Eq, Structural)]
pub enum PcapMagicNumber {
    /// Little-endian fields, fraction in microseconds.
    LeMicros,
    /// Big-endian fields, fraction in nanoseconds.
    BeNanos,
}

impl From<u32> for PcapMagicNumber {
    /// Classifies a magic value: the microsecond magic selects the
    /// little-endian microsecond variant, every other value the big-endian
    /// nanosecond one — the same rule `spec_magic` applies to a buffer.
    fn from(value: u32) -> (r: Self) {
        if value == MAGIC_LE_MICROS {
            PcapMagicNumber::LeMicros
        } else {
            PcapMagicNumber::BeNanos
        }
    }
}

impl vstd::std_specs::convert::FromSpecImpl<u32> for PcapMagicNumber {
    open spec fn obeys_from_spec() -> bool {
        true
    }

    open spec fn from_spec(v: u32) -> Self {
        if v == MAGIC_LE_MICROS {
            PcapMagicNumber::LeMicros
        } else {
            PcapMagicNumber::BeNanos
        }
    }
}

/// The decoded file header. The cyclic-sequence indicator and the
/// extension flag are bit-masked out of the raw link type.
#[derive(Copy, Clone, Debug, PartialEq, Eq, Structural)]
pub struct PcapFileHeader {
    pub magic_number: PcapMagicNumber,
    pub major_version: u16,
    pub minor_version: u16,
    pub snap_len: u32,
    pub link_type: u32,
    pub frame_cyclic_sequence: u8,
    pub f_bit: bool,
}

/// A decoded packet record: its payload is exactly `captured_packet_length`
/// bytes.
#[derive(Clone, Debug)]
pub struct PcapPacketRecord {
    pub ts_secs: u32,
    pub ts_secs_fraction: u32,
    pub captured_packet_length: u32,
    pub original_packet_length: u32,
    pub packet_data: Vec<u8>,
}

/// The mathematical image of a packet record.
pub ghost struct PacketRecordModel {
    pub ts_secs: u32,
    pub ts_secs_fraction: u32,
    pub captured_packet_length: u32,
    pub original_packet_length: u32,
    pub packet_data: Seq<u8>,
}

impl View for PcapPacketRecord {
    type V = PacketRecordModel;

    open spec fn view(&self) -> PacketRecordModel {
        PacketRecordModel {
            ts_secs: self.ts_secs,
            ts_secs_fraction: self.ts_secs_fraction,
            captured_packet_length: self.captured_packet_length,
            original_packet_length: self.original_packet_length,
            packet_data: self.packet_data@,
        }
    }
}

/// A fully parsed recording: header plus packets in capture order.
#[derive(Debug)]
pub struct Pcap {
    pub header: PcapFileHeader,
    pub packets: Vec<PcapPacketRecord>,
}

/// The mathematical image of a recording.
pub ghost struct PcapModel {
    pub header: PcapFileHeader,
    pub packets: Seq<PacketRecordModel>,
}

/// The images of a sequence of records.
pub open spec fn models_of(s: Seq<PcapPacketRecord>) -> Seq<PacketRecordModel> {
    s.map_values(|p: PcapPacketRecord| p@)
}

impl View for Pcap {
    type V = PcapModel;

    open spec fn view(&self) -> PcapModel {
        PcapModel { header: self.header, packets: models_of(self.packets@) }
    }
}

/// The 16-bit integer at offset `i`, little-endian.
pub open spec fn le_u16_at(b: Seq<u8>, i: int) -> u16 {
    (b[i] + b[i + 1] * 0x100) as u16
}

/// The 16-bit integer at offset `i`, big-endian.
pub open spec fn be_u16_at(b: Seq<u8>, i: int) -> u16 {
    (b[i + 1] + b[i] * 0x100) as u16
}

/// The 32-bit integer at offset `i`, little-endian.
pub open spec fn le_u32_at(b: Seq<u8>, i: int) -> u32 {
    (b[i] + b[i + 1] * 0x100 + b[i + 2] * 0x1_0000 + b[i + 3] * 0x100_0000) as u32
}

/// The 32-bit integer at offset `i`, big-endian.
pub open spec fn be_u32_at(b: Seq<u8>, i: int) -> u32 {
    (b[i + 3] + b[i + 2] * 0x100 + b[i + 1] * 0x1_0000 + b[i] * 0x100_0000) as u32
}

/// The 16-bit integer at offset `i` in the file's byte order.
pub open spec fn u16_at(b: Seq<u8>, i: int, m: PcapMagicNumber) -> u16 {
    match m {
        PcapMagicNumber::LeMicros => le_u16_at(b, i),
        PcapMagicNumber::BeNanos => be_u16_at(b, i),
    }
}

/// The 32-bit integer at offset `i` in the file's byte order.
pub open spec fn u32_at(b: Seq<u8>, i: int, m: PcapMagicNumber) -> u32 {
    match m {
        PcapMagicNumber::LeMicros => le_u32_at(b, i),
        PcapMagicNumber::BeNanos => be_u32_at(b, i),
    }
}

/// The variant a buffer selects: its first four bytes, read little-endian,
/// either match the microsecond magic or the whole file is taken as the
/// big-endian nanosecond variant.
pub open spec fn spec_magic(b: Seq<u8>) -> PcapMagicNumber {
    if le_u32_at(b, 0) == MAGIC_LE_MICROS {
        PcapMagicNumber::LeMicros
    } else {
        PcapMagicNumber::BeNanos
    }
}

/// The header a buffer of at least `PCAP_HEADER_LENGTH` bytes decodes to:
/// magic(4), major(2), minor(2), reserved(8, ignored), snap_len(4),
/// link_type(4); the top nibble of the link type is the cyclic-sequence
/// indicator and its bit 27 the extension flag.
pub open spec fn spec_header(b: Seq<u8>) -> PcapFileHeader {
    let m = spec_magic(b);
    let link_type = u32_at(b, 20, m);
    PcapFileHeader {
        magic_number: m,
        major_version: u16_at(b, 4, m),
        minor_version: u16_at(b, 6, m),
        snap_len: u32_at(b, 16, m),
        link_type,
        frame_cyclic_sequence: ((link_type & 0xF000_0000) >> 28) as u8,
        f_bit: link_type & 0x0800_0000 != 0,
    }
}

/// The record whose fixed part starts at offset `i`: timestamp seconds(4),
/// timestamp fraction(4), captured length(4), original length(4), then
/// exactly `captured length` payload bytes.
pub open spec fn spec_record_at(b: Seq<u8>, i: int, m: PcapMagicNumber) -> PacketRecordModel {
    let k = u32_at(b, i + 8, m) as int;
    PacketRecordModel {
        ts_secs: u32_at(b, i, m),
        ts_secs_fraction: u32_at(b, i + 4, m),
        captured_packet_length: u32_at(b, i + 8, m),
        original_packet_length: u32_at(b, i + 12, m),
        packet_data: b.subrange(i + 16, i + 16 + k),
    }
}

/// The records that tile the buffer from offset `i` to its end; `None` if
/// a fixed part is truncated or a declared payload overruns what remains.
pub open spec fn spec_parse_records(b: Seq<u8>, i: int, m: PcapMagicNumber) -> Option<
    Seq<PacketRecordModel>,
>
    decreases b.len() - i,
{
    if i == b.len() {
        Some(Seq::empty())
    } else if i + PCAP_RECORD_FIXED_LENGTH > b.len() {
        None
    } else if i + PCAP_RECORD_FIXED_LENGTH + u32_at(b, i + 8, m) > b.len() {
        None
    } else {
        match spec_parse_records(b, i + PCAP_RECORD_FIXED_LENGTH + u32_at(b, i + 8, m), m) {
            Some(rest) => Some(seq![spec_record_at(b, i, m)] + rest),
            None => None,
        }
    }
}

/// What a buffer parses to: `None` on a short header or any malformed
/// record; a recording with zero packets is a successful parse.
pub open spec fn spec_parse(b: Seq<u8>) -> Option<PcapModel> {
    if b.len() < PCAP_HEADER_LENGTH {
        None
    } else {
        match spec_parse_records(b, PCAP_HEADER_LENGTH as int, spec_magic(b)) {
            Some(rs) => Some(PcapModel { header: spec_header(b), packets: rs }),
            None => None,
        }
    }
}

/// Law: a successfully parsed record that declares `captured_length = k`
/// carries exactly the next `k` bytes after its fixed part as payload, and
/// the record chain continues exactly `PCAP_RECORD_FIXED_LENGTH + k` bytes
/// further on.
pub proof fn lemma_record_extraction(b: Seq<u8>, i: int, m: PcapMagicNumber)
    requires
        0 <= i,
        i + PCAP_RECORD_FIXED_LENGTH <= b.len(),
        i + PCAP_RECORD_FIXED_LENGTH + u32_at(b, i + 8, m) <= b.len(),
        spec_parse_records(b, i, m) is Some,
    ensures
        ({
            let k = u32_at(b, i + 8, m) as int;
            let rs = spec_parse_records(b, i, m)->Some_0;
            &&& rs.len() >= 1
            &&& rs[0].captured_packet_length == u32_at(b, i + 8, m)
            &&& rs[0].packet_data == b.subrange(
                i + PCAP_RECORD_FIXED_LENGTH,
                i + PCAP_RECORD_FIXED_LENGTH + k,
            )
            &&& rs[0].packet_data.len() == k
            &&& spec_parse_records(b, i + PCAP_RECORD_FIXED_LENGTH + k, m) is Some
            &&& rs.skip(1) == spec_parse_records(b, i + PCAP_RECORD_FIXED_LENGTH + k, m)->Some_0
        }),
{
    let k = u32_at(b, i + 8, m) as int;
    let rest = spec_parse_records(b, i + PCAP_RECORD_FIXED_LENGTH + k, m)->Some_0;
    let rs = spec_parse_records(b, i, m)->Some_0;
    assert(rs == seq![spec_record_at(b, i, m)] + rest);
    assert(rs.skip(1) =~= rest);
}

/// The record-chain positions: `j` is reachable from `i` when whole
/// records, each its fixed part plus its declared payload, exactly cover
/// `b[i..j]`.
pub open spec fn spec_chain_reaches(b: Seq<u8>, i: int, j: int, m: PcapMagicNumber) -> bool
    decreases j - i,
{
    if i == j {
        true
    } else if i + PCAP_RECORD_FIXED_LENGTH > b.len() {
        false
    } else if i + PCAP_RECORD_FIXED_LENGTH + u32_at(b, i + 8, m) > j {
        false
    } else {
        spec_chain_reaches(b, i + PCAP_RECORD_FIXED_LENGTH + u32_at(b, i + 8, m), j, m)
    }
}

/// A parse failure anywhere along the record chain fails the parse from
/// every earlier chain position.
pub proof fn lemma_failure_propagates(b: Seq<u8>, i: int, j: int, m: PcapMagicNumber)
    requires
        0 <= i <= j <= b.len(),
        spec_chain_reaches(b, i, j, m),
        spec_parse_records(b, j, m) is None,
    ensures
        spec_parse_records(b, i, m) is None,
    decreases j - i,
{
    if i != j {
        let k = u32_at(b, i + 8, m) as int;
        lemma_failure_propagates(b, i + PCAP_RECORD_FIXED_LENGTH + k, j, m);
    }
}

/// Law: a buffer whose record chain ends in a record that is truncated —
/// its fixed part cut short, or its declared `captured_length` exceeding
/// the bytes that remain — is rejected as a whole; no partial recording is
/// ever produced.
pub proof fn lemma_truncation_detected(b: Seq<u8>, j: int, m: PcapMagicNumber)
    requires
        b.len() >= PCAP_HEADER_LENGTH,
        m == spec_magic(b),
        spec_chain_reaches(b, PCAP_HEADER_LENGTH as int, j, m),
        PCAP_HEADER_LENGTH <= j < b.len(),
        j + PCAP_RECORD_FIXED_LENGTH > b.len() || j + PCAP_RECORD_FIXED_LENGTH + u32_at(
            b,
            j + 8,
            m,
        ) > b.len(),
    ensures
        spec_parse(b) is None,
{
    assert(spec_parse_records(b, j, m) is None);
    lemma_failure_propagates(b, PCAP_HEADER_LENGTH as int, j, m);
}

/// Reads the 16-bit field at `i` in the given byte order.
fn read_u16(input: &[u8], i: usize, m: PcapMagicNumber) -> (r: u16)
    requires
        i + 2 <= input@.len(),
    ensures
        r == u16_at(input@, i as int, m),
{
    match m {
        PcapMagicNumber::LeMicros => (input[i] as u16) + (input[i + 1] as u16) * 0x100,
        PcapMagicNumber::BeNanos => (input[i + 1] as u16) + (input[i] as u16) * 0x100,
    }
}

/// Reads the 32-bit field at `i` in the given byte order.
fn read_u32(input: &[u8], i: usize, m: PcapMagicNumber) -> (r: u32)
    requires
        i + 4 <= input@.len(),
    ensures
        r == u32_at(input@, i as int, m),
{
    match m {
        PcapMagicNumber::LeMicros => (input[i] as u32) + (input[i + 1] as u32) * 0x100 + (input[i
            + 2] as u32) * 0x1_0000 + (input[i + 3] as u32) * 0x100_0000,
        PcapMagicNumber::BeNanos => (input[i + 3] as u32) + (input[i + 2] as u32) * 0x100 + (input[i
            + 1] as u32) * 0x1_0000 + (input[i] as u32) * 0x100_0000,
    }
}

/// Copies `input[from..to]` into an owned buffer.
pub(crate) fn copy_range(input: &[u8], from: usize, to: usize) -> (v: Vec<u8>)
    requires
        from <= to <= input@.len(),
    ensures
        v@ == input@.subrange(from as int, to as int),
{
    let mut v: Vec<u8> = Vec::new();
    let mut j: usize = from;
    while j < to
        invariant
            from <= j <= to <= input@.len(),
            v@ == input@.subrange(from as int, j as int),
        decreases to - j,
    {
        v.push(input[j]);
        j = j + 1;
        proof {
            assert(v@ =~= input@.subrange(from as int, j as int));
        }
    }
    v
}

/// Decodes a whole trace buffer. Returns exactly the recording the format
/// description (`spec_parse`) assigns to the buffer, and `ParsePcapError`
/// precisely on the buffers it rejects; no partial recording is produced.
pub fn parse_pcap_file(input: &[u8]) -> (r: Result<Pcap, Error>)
    ensures
        match spec_parse(input@) {
            Some(model) => r matches Ok(p) && p@ == model,
            None => r matches Err(e) && e == Error::ParsePcapError,
        },
{
    let n = input.len();
    if n < PCAP_HEADER_LENGTH {
        return Err(Error::ParsePcapError);
    }
    let magic_raw_le = read_u32(input, 0, PcapMagicNumber::LeMicros);
    let m = if magic_raw_le == MAGIC_LE_MICROS {
        PcapMagicNumber::LeMicros
    } else {
        PcapMagicNumber::BeNanos
    };
    assert(m == spec_magic(input@));
    let link_type = read_u32(input, 20, m);
    let header = PcapFileHeader {
        magic_number: m,
        major_version: read_u16(input, 4, m),
        minor_version: read_u16(input, 6, m),
        snap_len: read_u32(input, 16, m),
        link_type,
        frame_cyclic_sequence: ((link_type & 0xF000_0000) >> 28) as u8,
        f_bit: link_type & 0x0800_0000 != 0,
    };
    assert(header == spec_header(input@));

    let mut packets: Vec<PcapPacketRecord> = Vec::new();
    let mut cursor: usize = PCAP_HEADER_LENGTH;
    while cursor < n
        invariant
            PCAP_HEADER_LENGTH <= cursor <= n,
            n == input@.len(),
            m == spec_magic(input@),
            match spec_parse_records(input@, cursor as int, m) {
                Some(rest) => spec_parse_records(input@, PCAP_HEADER_LENGTH as int, m) == Some(
                    models_of(packets@) + rest,
                ),
                None => spec_parse_records(input@, PCAP_HEADER_LENGTH as int, m) is None,
            },
        decreases n - cursor,
    {
        if n - cursor < PCAP_RECORD_FIXED_LENGTH {
            return Err(Error::ParsePcapError);
        }
        let cap_len = read_u32(input, cursor + 8, m);
        if (cap_len as usize) > n - cursor - PCAP_RECORD_FIXED_LENGTH {
            return Err(Error::ParsePcapError);
        }
        let k = cap_len as usize;
        let payload = copy_range(
            input,
            cursor + PCAP_RECORD_FIXED_LENGTH,
            cursor + PCAP_RECORD_FIXED_LENGTH + k,
        );
        let record = PcapPacketRecord {
            ts_secs: read_u32(input, cursor, m),
            ts_secs_fraction: read_u32(input, cursor + 4, m),
            captured_packet_length: cap_len,
            original_packet_length: read_u32(input, cursor + 12, m),
            packet_data: payload,
        };
        proof {
            assert(record@ == spec_record_at(input@, cursor as int, m));
        }
        let ghost old_models = models_of(packets@);
        packets.push(record);
        proof {
            assert(models_of(packets@) =~= old_models + seq![record@]);
            let next = cursor + PCAP_RECORD_FIXED_LENGTH + k;
            if let Some(rest2) = spec_parse_records(input@, next as int, m) {
                assert(spec_parse_records(input@, cursor as int, m) == Some(
                    seq![spec_record_at(input@, cursor as int, m)] + rest2,
                ));
                assert(old_models + (seq![record@] + rest2) =~= models_of(packets@) + rest2);
            } else {
                assert(spec_parse_records(input@, cursor as int, m) is None);
            }
        }
        cursor = cursor + PCAP_RECORD_FIXED_LENGTH + k;
    }
    proof {
        assert(spec_parse_records(input@, cursor as int, m) == Some(
            Seq::<PacketRecordModel>::empty(),
        ));
        assert(models_of(packets@) + Seq::<PacketRecordModel>::empty() =~= models_of(packets@));
    }
    Ok(Pcap { header, packets })
}

} // verus!
