//! The process image: one contiguous byte buffer holding the current
//! output values (written by the master, read by the slaves) followed by
//! the current input values (written by the slaves, read by the master).
//!
//! The buffer is allocated once when a session is built and reused on
//! every cycle; the region split never moves.  All access goes through
//! bounds-checked byte and bit accessors, so no caller ever works with a
//! raw offset into the buffer.

use vstd::prelude::*;

verus! {

/// Size of the backing store a session reserves for its process image;
/// mapping fails rather than exceed it.
pub const IMAGE_CAPACITY: usize = 4096;

pub struct ProcessImage {
    buf: Vec<u8>,
    output_bytes: usize,
    input_bytes: usize,
}

/// The byte `b` with bit `bit` forced to `value`.
pub open spec fn spec_with_bit(b: u8, bit: u8, value: bool) -> u8 {
    if value {
        b | (1u8 << bit)
    } else {
        b & !(1u8 << bit)
    }
}

impl ProcessImage {
    /// The output region, as the master last wrote it.
    pub closed spec fn outputs(self) -> Seq<u8> {
        self.buf@.subrange(0, self.output_bytes as int)
    }

    /// The input region, as the slaves last filled it.
    pub closed spec fn inputs(self) -> Seq<u8> {
        self.buf@.subrange(
            self.output_bytes as int,
            self.output_bytes + self.input_bytes,
        )
    }

    pub closed spec fn spec_output_count(self) -> int {
        self.output_bytes as int
    }

    pub closed spec fn spec_input_count(self) -> int {
        self.input_bytes as int
    }

    /// The buffer holds exactly the two regions, and they fit the reserved
    /// capacity.
    pub closed spec fn wf(self) -> bool {
        &&& self.buf@.len() == self.output_bytes + self.input_bytes
        &&& self.output_bytes + self.input_bytes <= IMAGE_CAPACITY
    }

    /// A well-formed image's regions have exactly the advertised byte
    /// counts; callers outside this module rely on this to size what they
    /// read against the group's mapping.
    pub proof fn lemma_region_lengths(self)
        requires
            self.wf(),
        ensures
            self.outputs().len() == self.spec_output_count(),
            self.inputs().len() == self.spec_input_count(),
    {
    }

    /// A fresh, zero-filled image with the given region sizes.
    pub fn new(output_bytes: usize, input_bytes: usize) -> (r: ProcessImage)
        requires
            output_bytes + input_bytes <= IMAGE_CAPACITY,
        ensures
            r.wf(),
            r.spec_output_count() == output_bytes,
            r.spec_input_count() == input_bytes,
            r.outputs() =~= Seq::new(output_bytes as nat, |i: int| 0u8),
            r.inputs() =~= Seq::new(input_bytes as nat, |i: int| 0u8),
    {
        let total = output_bytes + input_bytes;
        let mut buf: Vec<u8> = Vec::new();
        let mut i: usize = 0;
        while i < total
            invariant
                i <= total,
                buf@.len() == i,
                forall|j: int| 0 <= j < i ==> buf@[j] == 0u8,
            decreases total - i,
        {
            buf.push(0u8);
            i += 1;
        }
        let r = ProcessImage { buf, output_bytes, input_bytes };
        assert(r.outputs() =~= Seq::new(output_bytes as nat, |i: int| 0u8));
        assert(r.inputs() =~= Seq::new(input_bytes as nat, |i: int| 0u8));
        r
    }

    pub fn output_count(&self) -> (r: usize)
        ensures
            r == self.spec_output_count(),
    {
        self.output_bytes
    }

    pub fn input_count(&self) -> (r: usize)
        ensures
            r == self.spec_input_count(),
    {
        self.input_bytes
    }

    pub fn read_output_byte(&self, offset: usize) -> (r: u8)
        requires
            self.wf(),
            offset < self.spec_output_count(),
        ensures
            r == self.outputs()[offset as int],
    {
        self.buf[offset]
    }

    pub fn write_output_byte(&mut self, offset: usize, value: u8)
        requires
            old(self).wf(),
            offset < old(self).spec_output_count(),
        ensures
            final(self).wf(),
            final(self).spec_output_count() == old(self).spec_output_count(),
            final(self).spec_input_count() == old(self).spec_input_count(),
            final(self).outputs() =~= old(self).outputs().update(offset as int, value),
            final(self).inputs() =~= old(self).inputs(),
    {
        self.buf.set(offset, value);
    }

    pub fn read_input_byte(&self, offset: usize) -> (r: u8)
        requires
            self.wf(),
            offset < self.spec_input_count(),
        ensures
            r == self.inputs()[offset as int],
    {
        self.buf[self.output_bytes + offset]
    }

    /// The slaves' side of an exchange: the network stack deposits a
    /// received input byte here.
    pub fn write_input_byte(&mut self, offset: usize, value: u8)
        requires
            old(self).wf(),
            offset < old(self).spec_input_count(),
        ensures
            final(self).wf(),
            final(self).spec_output_count() == old(self).spec_output_count(),
            final(self).spec_input_count() == old(self).spec_input_count(),
            final(self).inputs() =~= old(self).inputs().update(offset as int, value),
            final(self).outputs() =~= old(self).outputs(),
    {
        self.buf.set(self.output_bytes + offset, value);
    }

    /// Force a single output bit, leaving every other bit of the image as
    /// it was.
    pub fn set_output_bit(&mut self, offset: usize, bit: u8, value: bool)
        requires
            old(self).wf(),
            offset < old(self).spec_output_count(),
            bit < 8,
        ensures
            final(self).wf(),
            final(self).spec_output_count() == old(self).spec_output_count(),
            final(self).spec_input_count() == old(self).spec_input_count(),
            final(self).outputs() =~= old(self).outputs().update(
                offset as int,
                spec_with_bit(old(self).outputs()[offset as int], bit, value),
            ),
            final(self).inputs() =~= old(self).inputs(),
    {
        let b = self.read_output_byte(offset);
        let updated = if value {
            b | (1u8 << bit)
        } else {
            b & !(1u8 << bit)
        };
        self.write_output_byte(offset, updated);
    }

    /// A copy of the output region, as the master is currently sending
    /// it.
    pub fn snapshot_outputs(&self) -> (r: Vec<u8>)
        requires
            self.wf(),
        ensures
            r@ =~= self.outputs(),
            r@.len() == self.spec_output_count(),
    {
        let mut out: Vec<u8> = Vec::new();
        let mut i: usize = 0;
        while i < self.output_bytes
            invariant
                self.wf(),
                i <= self.output_bytes,
                out@.len() == i,
                forall|j: int| 0 <= j < i ==> out@[j] == self.outputs()[j],
            decreases self.output_bytes - i,
        {
            let b = self.read_output_byte(i);
            out.push(b);
            i += 1;
        }
        out
    }

    /// A copy of the input region, handed to the application layer after a
    /// cycle whose working counter was accepted.
    pub fn snapshot_inputs(&self) -> (r: Vec<u8>)
        requires
            self.wf(),
        ensures
            r@ =~= self.inputs(),
            r@.len() == self.spec_input_count(),
    {
        let mut out: Vec<u8> = Vec::new();
        let mut i: usize = 0;
        while i < self.input_bytes
            invariant
                self.wf(),
                i <= self.input_bytes,
                out@.len() == i,
                forall|j: int| 0 <= j < i ==> out@[j] == self.inputs()[j],
            decreases self.input_bytes - i,
        {
            let b = self.read_input_byte(i);
            out.push(b);
            i += 1;
        }
        out
    }
}

} // verus!
