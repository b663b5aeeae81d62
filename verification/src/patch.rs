use vstd::prelude::*;
use crate::slice_ops::SliceError;

verus! {

/// Bytes to write at an address of the game's memory.
pub struct MemoryWrite {
    pub address: u64,
    pub bytes: Vec<u8>,
}

impl View for MemoryWrite {
    type V = (u64, Seq<u8>);

    open spec fn view(&self) -> (u64, Seq<u8>) {
        (self.address, self.bytes@)
    }
}

/// A change to the game's memory: the writes to make, in order, and the
/// error to report once they are made, when the change could not be built
/// to its end.
pub struct Patch {
    pub writes: Vec<MemoryWrite>,
    pub error: Option<SliceError>,
}

/// The address and bytes of each write.
pub open spec fn writes_view(ws: Seq<MemoryWrite>) -> Seq<(u64, Seq<u8>)> {
    ws.map_values(|w: MemoryWrite| w@)
}

/// A change as writes and a final error.
pub type PatchPlan = (Seq<(u64, Seq<u8>)>, Option<SliceError>);

/// The change that a computation of its writes leads to: all of them, or
/// none and its error.
pub open spec fn plan_of(r: Result<Seq<(u64, Seq<u8>)>, SliceError>) -> PatchPlan {
    match r {
        Ok(ws) => (ws, None),
        Err(e) => (Seq::empty(), Some(e)),
    }
}

/// Whether `p` makes exactly the writes of `plan` and ends with its error.
pub open spec fn patch_is(p: Patch, plan: PatchPlan) -> bool {
    &&& writes_view(p.writes@) == plan.0
    &&& p.error == plan.1
}

/// Memory after one write: the write's bytes at its addresses, the rest as
/// it was.
pub open spec fn write_memory(mem: spec_fn(int) -> u8, w: (u64, Seq<u8>)) -> spec_fn(int) -> u8 {
    |a: int| if w.0 <= a < w.0 + w.1.len() { w.1[a - w.0] } else { mem(a) }
}

/// Memory after the writes, made in order.
pub open spec fn apply_writes(mem: spec_fn(int) -> u8, ws: Seq<(u64, Seq<u8>)>) -> spec_fn(int) -> u8
    decreases ws.len(),
{
    if ws.len() == 0 {
        mem
    } else {
        write_memory(apply_writes(mem, ws.drop_last()), ws.last())
    }
}

/// The `n` bytes of memory from `address` on.
pub open spec fn read_memory(mem: spec_fn(int) -> u8, address: int, n: nat) -> Seq<u8> {
    Seq::new(n, |i: int| mem(address + i))
}

/// After a series of writes, the bytes of the last one are read back where it
/// was made, whatever the memory held before.
pub proof fn lemma_read_last_write(mem: spec_fn(int) -> u8, ws: Seq<(u64, Seq<u8>)>)
    requires
        ws.len() > 0,
    ensures
        read_memory(apply_writes(mem, ws), ws.last().0 as int, ws.last().1.len()) == ws.last().1,
{
    assert(read_memory(apply_writes(mem, ws), ws.last().0 as int, ws.last().1.len()) =~= ws.last().1);
}

impl Patch {
    /// A change that makes no write and reports `e`.
    pub fn failed(e: SliceError) -> (p: Patch)
        ensures
            patch_is(p, (Seq::empty(), Some(e))),
    {
        let p = Patch { writes: Vec::new(), error: Some(e) };
        assert(writes_view(p.writes@) =~= Seq::empty());
        p
    }

    /// A change that writes `bytes` at `address`.
    pub fn single(address: u64, bytes: Vec<u8>) -> (p: Patch)
        ensures
            patch_is(p, (seq![(address, bytes@)], None)),
    {
        let mut writes: Vec<MemoryWrite> = Vec::new();
        writes.push(MemoryWrite { address, bytes });
        let p = Patch { writes, error: None };
        assert(writes_view(p.writes@) =~= seq![(address, p.writes@[0].bytes@)]);
        p
    }

    /// The writes of `self`, then `bytes` at `address`.
    pub fn push(&mut self, address: u64, bytes: Vec<u8>)
        ensures
            writes_view(final(self).writes@) == writes_view(old(self).writes@).push((address, bytes@)),
            final(self).error == old(self).error,
    {
        let ghost before = self.writes@;
        let ghost b = bytes@;
        self.writes.push(MemoryWrite { address, bytes });
        assert(writes_view(self.writes@) =~= writes_view(before).push((address, b)));
    }

    /// The writes of `p`, then the error `e`.
    pub fn after(p: Patch, e: SliceError) -> (r: Patch)
        ensures
            writes_view(r.writes@) == writes_view(p.writes@),
            r.error == Some(e),
    {
        Patch { writes: p.writes, error: Some(e) }
    }

    /// A change that writes `first` at `a`, `second` at `b` and `third` at `c`.
    pub fn triple(a: u64, first: Vec<u8>, b: u64, second: Vec<u8>, c: u64, third: Vec<u8>) -> (p: Patch)
        ensures
            patch_is(p, (seq![(a, first@), (b, second@), (c, third@)], None)),
    {
        let ghost f = first@;
        let ghost s = second@;
        let ghost t = third@;
        let mut writes: Vec<MemoryWrite> = Vec::new();
        writes.push(MemoryWrite { address: a, bytes: first });
        writes.push(MemoryWrite { address: b, bytes: second });
        writes.push(MemoryWrite { address: c, bytes: third });
        let p = Patch { writes, error: None };
        assert(writes_view(p.writes@) =~= seq![(a, f), (b, s), (c, t)]);
        p
    }

    /// A change that writes `first` at `a`, then `second` at `b`.
    pub fn pair(a: u64, first: Vec<u8>, b: u64, second: Vec<u8>) -> (p: Patch)
        ensures
            patch_is(p, (seq![(a, first@), (b, second@)], None)),
    {
        let ghost f = first@;
        let ghost s = second@;
        let mut writes: Vec<MemoryWrite> = Vec::new();
        writes.push(MemoryWrite { address: a, bytes: first });
        writes.push(MemoryWrite { address: b, bytes: second });
        let p = Patch { writes, error: None };
        assert(writes_view(p.writes@) =~= seq![(a, f), (b, s)]);
        p
    }
}

} // verus!
