//! Groups: a partition of slaves sharing one contiguous I/O mapping, and
//! the deterministic sequential mapping that lays a scanned network out in
//! the process image.
//!
//! Working-counter accounting: the cyclic frame is a combined read/write
//! datagram, so a slave that carries outputs confirms both the read and the
//! write half and contributes twice to the expected counter, while a slave
//! that only carries inputs confirms the read half once.  The expected
//! counter of a group is therefore `2 * outputsWKC + inputsWKC`, fixed when
//! the mapping is built and never recomputed during a session.

use vstd::prelude::*;
use crate::errors::FieldbusError;
use crate::image::IMAGE_CAPACITY;
use crate::registry::{SlaveInfo, MAX_SLAVES};

verus! {

#[derive(Clone, Copy, PartialEq, Eq, Structural, Debug)]
pub struct Group {
    pub id: u8,
    /// Offset of the group's output region in the process image.
    pub output_offset: usize,
    pub output_bytes: usize,
    /// Offset of the group's input region in the process image.
    pub input_offset: usize,
    pub input_bytes: usize,
    /// Number of member slaves that carry outputs.
    pub outputs_wkc: u16,
    /// Number of member slaves that carry inputs.
    pub inputs_wkc: u16,
    /// Armed while some member slave is short of OPERATIONAL; the health
    /// monitor re-derives it on every pass.
    pub docheckstate: bool,
}

/// How much one slave raises the working counter of a fully processed
/// frame: two for carrying outputs, one for carrying inputs.
pub open spec fn spec_contribution(info: SlaveInfo) -> int {
    (if info.output_bytes > 0 { 2int } else { 0int })
        + (if info.input_bytes > 0 { 1int } else { 0int })
}

pub open spec fn total_contribution(infos: Seq<SlaveInfo>) -> int
    decreases infos.len(),
{
    if infos.len() == 0 {
        0
    } else {
        total_contribution(infos.drop_last()) + spec_contribution(infos.last())
    }
}

pub open spec fn total_output_bytes(infos: Seq<SlaveInfo>) -> int
    decreases infos.len(),
{
    if infos.len() == 0 {
        0
    } else {
        total_output_bytes(infos.drop_last()) + infos.last().output_bytes
    }
}

pub open spec fn total_input_bytes(infos: Seq<SlaveInfo>) -> int
    decreases infos.len(),
{
    if infos.len() == 0 {
        0
    } else {
        total_input_bytes(infos.drop_last()) + infos.last().input_bytes
    }
}

pub open spec fn count_output_contributors(infos: Seq<SlaveInfo>) -> int
    decreases infos.len(),
{
    if infos.len() == 0 {
        0
    } else {
        count_output_contributors(infos.drop_last())
            + (if infos.last().output_bytes > 0 { 1int } else { 0int })
    }
}

pub open spec fn count_input_contributors(infos: Seq<SlaveInfo>) -> int
    decreases infos.len(),
{
    if infos.len() == 0 {
        0
    } else {
        count_input_contributors(infos.drop_last())
            + (if infos.last().input_bytes > 0 { 1int } else { 0int })
    }
}

/// The group a scan maps to, laid out sequentially: outputs first, inputs
/// directly after, nothing else in the image.  `None` when the scan is
/// empty, oversized, or does not fit the image capacity.
pub open spec fn spec_map_group(infos: Seq<SlaveInfo>, id: u8) -> Option<Group> {
    if 1 <= infos.len() <= MAX_SLAVES
        && total_output_bytes(infos) + total_input_bytes(infos) <= IMAGE_CAPACITY {
        Some(
            Group {
                id,
                output_offset: 0,
                output_bytes: total_output_bytes(infos) as usize,
                input_offset: total_output_bytes(infos) as usize,
                input_bytes: total_input_bytes(infos) as usize,
                outputs_wkc: count_output_contributors(infos) as u16,
                inputs_wkc: count_input_contributors(infos) as u16,
                docheckstate: false,
            },
        )
    } else {
        Option::<Group>::None
    }
}

impl Group {
    pub open spec fn spec_expected_wkc(self) -> int {
        2 * self.outputs_wkc + self.inputs_wkc
    }

    /// The working counter a fully processed frame must reach.
    pub fn expected_wkc(&self) -> (r: u32)
        ensures
            r == self.spec_expected_wkc(),
    {
        2 * (self.outputs_wkc as u32) + (self.inputs_wkc as u32)
    }

    /// Two group values describe the same mapping: everything but the
    /// health monitor's re-derived flag agrees.
    pub open spec fn same_mapping(self, other: Group) -> bool {
        &&& self.id == other.id
        &&& self.output_offset == other.output_offset
        &&& self.output_bytes == other.output_bytes
        &&& self.input_offset == other.input_offset
        &&& self.input_bytes == other.input_bytes
        &&& self.outputs_wkc == other.outputs_wkc
        &&& self.inputs_wkc == other.inputs_wkc
    }
}

/// Sums over a prefix never exceed the sums over the whole scan.
proof fn lemma_totals_monotone(infos: Seq<SlaveInfo>, j: int)
    requires
        0 <= j <= infos.len(),
    ensures
        total_output_bytes(infos.take(j)) <= total_output_bytes(infos),
        total_input_bytes(infos.take(j)) <= total_input_bytes(infos),
    decreases infos.len(),
{
    if j == infos.len() {
        assert(infos.take(j) =~= infos);
    } else {
        assert(infos.take(j) =~= infos.drop_last().take(j));
        lemma_totals_monotone(infos.drop_last(), j);
    }
}

/// Extending a prefix by one element extends the running sums by exactly
/// that element's figures.
proof fn lemma_totals_step(infos: Seq<SlaveInfo>, i: int)
    requires
        0 <= i < infos.len(),
    ensures
        total_output_bytes(infos.take(i + 1)) == total_output_bytes(infos.take(i))
            + infos[i].output_bytes,
        total_input_bytes(infos.take(i + 1)) == total_input_bytes(infos.take(i))
            + infos[i].input_bytes,
        count_output_contributors(infos.take(i + 1)) == count_output_contributors(infos.take(i))
            + (if infos[i].output_bytes > 0 { 1int } else { 0int }),
        count_input_contributors(infos.take(i + 1)) == count_input_contributors(infos.take(i))
            + (if infos[i].input_bytes > 0 { 1int } else { 0int }),
{
    assert(infos.take(i + 1).drop_last() =~= infos.take(i));
    assert(infos.take(i + 1).last() == infos[i]);
}

/// Byte totals are sums of unsigned sizes and can never be negative.
pub proof fn lemma_totals_nonneg(infos: Seq<SlaveInfo>)
    ensures
        total_output_bytes(infos) >= 0,
        total_input_bytes(infos) >= 0,
    decreases infos.len(),
{
    if infos.len() > 0 {
        lemma_totals_nonneg(infos.drop_last());
    }
}

/// The contributor counts never exceed the number of slaves counted.
proof fn lemma_counts_bounded(infos: Seq<SlaveInfo>)
    ensures
        0 <= count_output_contributors(infos) <= infos.len(),
        0 <= count_input_contributors(infos) <= infos.len(),
    decreases infos.len(),
{
    if infos.len() > 0 {
        lemma_counts_bounded(infos.drop_last());
    }
}

/// Build the group a scan maps to.  The layout is deterministic: the same
/// scan always yields the same offsets and the same expected counter.
pub fn map_group(infos: &Vec<SlaveInfo>, id: u8) -> (r: Result<Group, FieldbusError>)
    ensures
        (spec_map_group(infos@, id) matches Some(g) ==> r == Ok::<Group, FieldbusError>(g)),
        (spec_map_group(infos@, id) is None ==> r == Err::<Group, FieldbusError>(
            FieldbusError::MappingFailure,
        )),
{
    let n = infos.len();
    if n == 0 || n > MAX_SLAVES {
        return Err(FieldbusError::MappingFailure);
    }
    let mut out_total: usize = 0;
    let mut in_total: usize = 0;
    let mut out_count: u16 = 0;
    let mut in_count: u16 = 0;
    let mut i: usize = 0;
    while i < n
        invariant
            n == infos@.len(),
            1 <= n <= MAX_SLAVES,
            i <= n,
            out_total == total_output_bytes(infos@.take(i as int)),
            in_total == total_input_bytes(infos@.take(i as int)),
            out_count == count_output_contributors(infos@.take(i as int)),
            in_count == count_input_contributors(infos@.take(i as int)),
            out_count <= i,
            in_count <= i,
            out_total + in_total <= IMAGE_CAPACITY,
        decreases n - i,
    {
        let info = infos[i];
        proof {
            lemma_totals_step(infos@, i as int);
        }
        if info.output_bytes > IMAGE_CAPACITY - out_total - in_total {
            proof {
                lemma_totals_monotone(infos@, i + 1);
            }
            return Err(FieldbusError::MappingFailure);
        }
        out_total = out_total + info.output_bytes;
        if info.input_bytes > IMAGE_CAPACITY - out_total - in_total {
            proof {
                lemma_totals_monotone(infos@, i + 1);
            }
            return Err(FieldbusError::MappingFailure);
        }
        in_total = in_total + info.input_bytes;
        if info.output_bytes > 0 {
            out_count = out_count + 1;
        }
        if info.input_bytes > 0 {
            in_count = in_count + 1;
        }
        i += 1;
    }
    proof {
        assert(infos@.take(n as int) =~= infos@);
    }
    Ok(
        Group {
            id,
            output_offset: 0,
            output_bytes: out_total,
            input_offset: out_total,
            input_bytes: in_total,
            outputs_wkc: out_count,
            inputs_wkc: in_count,
            docheckstate: false,
        },
    )
}

/// Law: slave contributions account for the whole expected counter — the
/// running total of two per output carrier and one per input carrier is
/// exactly twice the output count plus the input count.
pub proof fn lemma_contribution_sum(infos: Seq<SlaveInfo>)
    ensures
        total_contribution(infos) == 2 * count_output_contributors(infos)
            + count_input_contributors(infos),
    decreases infos.len(),
{
    if infos.len() > 0 {
        lemma_contribution_sum(infos.drop_last());
    }
}

/// Law: for every mapped group, the expected working counter equals the
/// sum of the member slaves' output and input contributions.
pub proof fn lemma_expected_wkc_is_member_sum(infos: Seq<SlaveInfo>, id: u8, g: Group)
    requires
        spec_map_group(infos, id) == Some(g),
    ensures
        g.spec_expected_wkc() == total_contribution(infos),
{
    lemma_counts_bounded(infos);
    lemma_contribution_sum(infos);
}

/// Law: the expected working counter is a function of the mapping alone —
/// no change that leaves the mapping intact (such as the health monitor
/// re-arming `docheckstate`) can move it.
pub proof fn lemma_expected_wkc_fixed(a: Group, b: Group)
    requires
        a.same_mapping(b),
    ensures
        a.spec_expected_wkc() == b.spec_expected_wkc(),
{
}

} // verus!
