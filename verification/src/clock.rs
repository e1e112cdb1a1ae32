//! The playback clock: pure timing arithmetic that turns a packet's raw
//! timestamp fields into a wall-clock duration, and two packets into the
//! wait that reproduces their captured cadence.

use vstd::prelude::*;

use crate::duration::PlayDuration;
use crate::pcap::{PacketRecordModel, PcapMagicNumber, PcapPacketRecord};

verus! {

/// Nanoseconds a raw timestamp stands for. In the microsecond variant the
/// fraction is widened a thousandfold; if that overflows its 32-bit width,
/// the carry adds one second and the wrapped remainder stays. In the
/// nanosecond variant the fraction is used unmodified.
pub open spec fn spec_timestamp_nanos(m: PcapMagicNumber, secs: u32, frac: u32) -> int {
    match m {
        PcapMagicNumber::LeMicros => {
            if frac * 1000 < 0x1_0000_0000 {
                secs * 1_000_000_000 + frac * 1000
            } else {
                (secs + 1) * 1_000_000_000 + (frac * 1000) % 0x1_0000_0000
            }
        },
        PcapMagicNumber::BeNanos => secs * 1_000_000_000 + frac,
    }
}

/// Nanoseconds a packet's derived timestamp stands for.
pub open spec fn spec_record_nanos(m: PcapMagicNumber, p: PacketRecordModel) -> int {
    spec_timestamp_nanos(m, p.ts_secs, p.ts_secs_fraction)
}

/// The wait between two successive packets: their timestamp difference,
/// floored at zero.
pub open spec fn spec_interval_nanos(
    m: PcapMagicNumber,
    prev: PacketRecordModel,
    next: PacketRecordModel,
) -> int {
    if spec_record_nanos(m, next) >= spec_record_nanos(m, prev) {
        spec_record_nanos(m, next) - spec_record_nanos(m, prev)
    } else {
        0
    }
}

/// The wall-clock duration a packet's timestamp stands for.
pub fn duration_from_timestamp(mode: &PcapMagicNumber, packet: &PcapPacketRecord) -> (d:
    PlayDuration)
    ensures
        d.wf(),
        d.as_nanos() == spec_record_nanos(*mode, packet@),
{
    match mode {
        PcapMagicNumber::LeMicros => {
            let prod: u64 = (packet.ts_secs_fraction as u64) * 1000;
            if prod < 0x1_0000_0000u64 {
                PlayDuration::new(packet.ts_secs as u64, prod as u32)
            } else {
                let wrapped: u32 = (prod % 0x1_0000_0000u64) as u32;
                PlayDuration::new(packet.ts_secs as u64 + 1, wrapped)
            }
        },
        PcapMagicNumber::BeNanos => PlayDuration::new(
            packet.ts_secs as u64,
            packet.ts_secs_fraction,
        ),
    }
}

/// The non-negative wait from `prev` to `next`.
pub fn interval(mode: &PcapMagicNumber, prev: &PcapPacketRecord, next: &PcapPacketRecord) -> (d:
    PlayDuration)
    ensures
        d.wf(),
        d.as_nanos() == spec_interval_nanos(*mode, prev@, next@),
{
    let dn = duration_from_timestamp(mode, next);
    let dp = duration_from_timestamp(mode, prev);
    dn.saturating_sub(&dp)
}

/// Law: a microsecond-unit timestamp whose fraction overflows the
/// thousandfold widening carries one extra second and keeps the wrapped
/// 32-bit remainder as nanoseconds; a nanosecond-unit timestamp never
/// applies the multiplication.
pub proof fn lemma_fraction_overflow_carry(secs: u32, frac: u32)
    requires
        frac * 1000 >= 0x1_0000_0000,
    ensures
        spec_timestamp_nanos(PcapMagicNumber::LeMicros, secs, frac) == (secs + 1) * 1_000_000_000
            + (frac * 1000) % 0x1_0000_0000,
        spec_timestamp_nanos(PcapMagicNumber::BeNanos, secs, frac) == secs * 1_000_000_000 + frac,
{
}

/// Law: the computed inter-packet wait is never negative, and whenever the
/// later packet's derived timestamp does not exceed the earlier one's it is
/// exactly zero.
pub proof fn lemma_interval_non_negative(
    m: PcapMagicNumber,
    prev: PacketRecordModel,
    next: PacketRecordModel,
)
    ensures
        spec_interval_nanos(m, prev, next) >= 0,
        spec_record_nanos(m, next) <= spec_record_nanos(m, prev) ==> spec_interval_nanos(
            m,
            prev,
            next,
        ) == 0,
{
}

} // verus!
