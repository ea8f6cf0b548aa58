//! The master session: the root object a successful bring-up hands out.
//!
//! It owns the process image, the slave registry and the group mapping for
//! the session's lifetime, together with the round-trip telemetry of the
//! cyclic engine.  The opaque network handle itself stays with the caller
//! driving the network stack; everything the master decides on lives here.

use vstd::prelude::*;
use crate::errors::FieldbusError;
use crate::exchange::{
    classify_cycle,
    elapsed_micros,
    spec_classify,
    spec_elapsed_micros,
    RoundtripStats,
    Timestamp,
};
use crate::group::Group;
use crate::image::ProcessImage;
use crate::registry::SlaveRegistry;

verus! {

pub struct MasterSession {
    /// The active group; this session cycles exactly one group.
    pub group_id: u8,
    pub group: Group,
    pub registry: SlaveRegistry,
    pub image: ProcessImage,
    /// Round-trip time of the most recent exchange, microseconds.
    pub roundtrip_time: u32,
    pub stats: RoundtripStats,
}

impl MasterSession {
    pub open spec fn wf(self) -> bool {
        &&& self.group.id == self.group_id
        &&& self.group.output_offset == 0
        &&& self.group.input_offset == self.group.output_bytes
        &&& self.image.wf()
        &&& self.image.spec_output_count() == self.group.output_bytes
        &&& self.image.spec_input_count() == self.group.input_bytes
        &&& self.registry.wf()
        &&& self.stats.wf()
    }

    /// Fold the raw results of one send/receive round into the session:
    /// update the round-trip telemetry and judge the working counter.
    ///
    /// The engine takes no state decisions and touches neither the process
    /// image nor the registry nor the mapping: callers route on what it
    /// returns.  `roundtrip_time` always reflects the latest round, but
    /// the min/max extremes fold in valid cycles only: a timed-out or
    /// short cycle's duration says nothing about the bus's jitter and
    /// leaves the extremes untouched.
    pub fn record_cycle(&mut self, raw_wkc: i32, start: &Timestamp, end: &Timestamp) -> (r:
        Result<u32, FieldbusError>)
        requires
            old(self).wf(),
            start.wf(),
            end.wf(),
            start.as_nanos() <= end.as_nanos(),
            spec_elapsed_micros(*start, *end) <= u32::MAX,
        ensures
            final(self).wf(),
            final(self).image == old(self).image,
            final(self).registry == old(self).registry,
            final(self).group == old(self).group,
            final(self).group_id == old(self).group_id,
            final(self).roundtrip_time == spec_elapsed_micros(*start, *end),
            r == spec_classify(raw_wkc, old(self).group.spec_expected_wkc()),
            r is Err ==> final(self).stats == old(self).stats,
            r is Ok ==> final(self).stats.recorded,
            r is Ok ==> final(self).stats.min_us == if old(self).stats.recorded {
                if final(self).roundtrip_time < old(self).stats.min_us {
                    final(self).roundtrip_time
                } else {
                    old(self).stats.min_us
                }
            } else {
                final(self).roundtrip_time
            },
            r is Ok ==> final(self).stats.max_us == if old(self).stats.recorded {
                if final(self).roundtrip_time > old(self).stats.max_us {
                    final(self).roundtrip_time
                } else {
                    old(self).stats.max_us
                }
            } else {
                final(self).roundtrip_time
            },
    {
        let micros = elapsed_micros(start, end);
        self.roundtrip_time = micros;
        let expected = self.group.expected_wkc();
        let r = classify_cycle(raw_wkc, expected);
        if r.is_ok() {
            self.stats.record(micros);
        }
        r
    }
}

/// Law: the exchange engine is idempotent on the master's side.  Recording
/// a cycle never moves the process image or the mapping (see
/// `record_cycle`), so as long as no slave state changes — the frame comes
/// back with the same raw counter — every repetition of `exchange` gets
/// the same verdict and the same accepted working counter.
pub proof fn lemma_exchange_idempotent(
    before: MasterSession,
    after: MasterSession,
    raw_wkc: i32,
)
    requires
        after.group == before.group,
        after.image == before.image,
    ensures
        spec_classify(raw_wkc, after.group.spec_expected_wkc()) == spec_classify(
            raw_wkc,
            before.group.spec_expected_wkc(),
        ),
        after.image.outputs() == before.image.outputs(),
{
}

} // verus!
