use vstd::prelude::*;
use std::collections::VecDeque;
use crate::attached::parse::str_equals;
use crate::object::copy_bytes;

verus! {

/// A symbol that a piece of machine code refers to, and where in the code.
pub struct Relocation {
    symbol: String,
    offset: u64,
}

impl Relocation {
    pub closed spec fn spec_symbol(&self) -> Seq<char> {
        self.symbol@
    }

    pub closed spec fn spec_offset(&self) -> u64 {
        self.offset
    }

    pub fn new(symbol: String, offset: u64) -> (r: Self)
        ensures
            r.spec_symbol() == symbol@,
            r.spec_offset() == offset,
    {
        Self { symbol, offset }
    }

    fn duplicate(&self) -> (r: Self)
        ensures
            r.spec_symbol() == self.spec_symbol(),
            r.spec_offset() == self.spec_offset(),
    {
        Self { symbol: self.symbol.clone(), offset: self.offset }
    }
}

/// Both relocation lists name the same symbols at the same offsets.
pub open spec fn same_relocations(a: Seq<Relocation>, b: Seq<Relocation>) -> bool {
    &&& a.len() == b.len()
    &&& forall|i: int|
        0 <= i < a.len() ==> (#[trigger] a[i]).spec_symbol() == b[i].spec_symbol()
            && a[i].spec_offset() == b[i].spec_offset()
}

/// Assembled machine code, with the relocations still to be applied, in order.
pub struct AsmFunction {
    name: String,
    bytes: Vec<u8>,
    relocations: VecDeque<Relocation>,
}

impl AsmFunction {
    pub closed spec fn spec_name(&self) -> Seq<char> {
        self.name@
    }

    pub closed spec fn spec_bytes(&self) -> Seq<u8> {
        self.bytes@
    }

    pub closed spec fn spec_relocations(&self) -> Seq<Relocation> {
        self.relocations@
    }

    /// Both hold the same name, code and relocations.
    pub open spec fn same_as(self, other: AsmFunction) -> bool {
        &&& self.spec_name() == other.spec_name()
        &&& self.spec_bytes() == other.spec_bytes()
        &&& same_relocations(self.spec_relocations(), other.spec_relocations())
    }

    pub fn new(name: String, bytes: Vec<u8>, relocations: VecDeque<Relocation>) -> (r: Self)
        ensures
            r.spec_name() == name@,
            r.spec_bytes() == bytes@,
            r.spec_relocations() == relocations@,
    {
        Self { name, bytes, relocations }
    }

    /// A copy of the function.
    pub fn duplicate(&self) -> (r: Self)
        ensures
            r.same_as(*self),
    {
        let mut relocations: VecDeque<Relocation> = VecDeque::new();
        let n = self.relocations.len();
        let mut i: usize = 0;
        while i < n
            invariant
                i <= n,
                n == self.relocations@.len(),
                relocations@.len() == i,
                forall|j: int|
                    0 <= j < i ==> (#[trigger] relocations@[j]).spec_symbol()
                        == self.relocations@[j].spec_symbol() && relocations@[j].spec_offset()
                        == self.relocations@[j].spec_offset(),
            decreases n - i,
        {
            relocations.push_back(self.relocations[i].duplicate());
            i = i + 1;
        }
        Self { name: self.name.clone(), bytes: copy_bytes(&self.bytes), relocations }
    }

    /// Takes the machine code out, leaving none behind.
    pub fn take_bytes(&mut self) -> (r: Vec<u8>)
        ensures
            r@ == old(self).spec_bytes(),
            final(self).spec_bytes() == Seq::<u8>::empty(),
            final(self).spec_name() == old(self).spec_name(),
            final(self).spec_relocations() == old(self).spec_relocations(),
    {
        let mut bytes: Vec<u8> = Vec::new();
        std::mem::swap(&mut bytes, &mut self.bytes);
        bytes
    }

    /// The offset of the next relocation, which must be for `name`; the
    /// relocation is consumed.
    pub fn reloc(&mut self, name: &str) -> (r: u64)
        requires
            old(self).spec_relocations().len() > 0,
            old(self).spec_relocations()[0].spec_symbol() == name@,
        ensures
            r == old(self).spec_relocations()[0].spec_offset(),
            final(self).spec_relocations() == old(self).spec_relocations().subrange(
                1,
                old(self).spec_relocations().len() as int,
            ),
            final(self).spec_name() == old(self).spec_name(),
            final(self).spec_bytes() == old(self).spec_bytes(),
    {
        let reloc = self.relocations.pop_front().unwrap();
        reloc.offset
    }

    /// The offset of the first relocation for `name`, which is consumed.
    pub fn reloc_find(&mut self, name: &str) -> (r: u64)
        requires
            exists|i: int|
                0 <= i < old(self).spec_relocations().len() && (#[trigger] old(
                    self,
                ).spec_relocations()[i]).spec_symbol() == name@,
        ensures
            ({
                let rs = old(self).spec_relocations();
                let k = choose|i: int|
                    0 <= i < rs.len() && (#[trigger] rs[i]).spec_symbol() == name@ && forall|
                        j: int,
                    |
                        0 <= j < i ==> (#[trigger] rs[j]).spec_symbol() != name@;
                &&& r == rs[k].spec_offset()
                &&& final(self).spec_relocations() == rs.remove(k)
            }),
            final(self).spec_name() == old(self).spec_name(),
            final(self).spec_bytes() == old(self).spec_bytes(),
    {
        let ghost rs = self.relocations@;
        let n = self.relocations.len();
        let mut i: usize = 0;
        while i < n
            invariant
                i <= n,
                n == rs.len(),
                rs == self.relocations@,
                rs == old(self).relocations@,
                self.name == old(self).name,
                self.bytes == old(self).bytes,
                exists|k: int| 0 <= k < rs.len() && (#[trigger] rs[k]).spec_symbol() == name@,
                forall|j: int| 0 <= j < i ==> (#[trigger] rs[j]).spec_symbol() != name@,
            decreases n - i,
        {
            if str_equals(self.relocations[i].symbol.as_str(), name) {
                proof {
                    let w = choose|k: int|
                        0 <= k < rs.len() && (#[trigger] rs[k]).spec_symbol() == name@ && forall|
                            j: int,
                        |
                            0 <= j < k ==> (#[trigger] rs[j]).spec_symbol() != name@;
                    assert(0 <= i < rs.len() && rs[i as int].spec_symbol() == name@);
                    if w < i {
                        assert(rs[w].spec_symbol() != name@);
                    }
                    if i < w {
                        assert(rs[i as int].spec_symbol() != name@);
                    }
                }
                let popped = self.relocations.remove(i).unwrap();
                return popped.offset;
            }
            i = i + 1;
        }
        proof {
            let k = choose|k: int| 0 <= k < rs.len() && (#[trigger] rs[k]).spec_symbol() == name@;
            assert(rs[k].spec_symbol() != name@);
        }
        0
    }
}

/// Whether one of `fs` is named `name`.
pub open spec fn has_name(fs: Seq<AsmFunction>, name: Seq<char>) -> bool {
    exists|i: int| 0 <= i < fs.len() && (#[trigger] fs[i]).spec_name() == name
}

/// The index of the function named `name` in a list of distinct names.
pub open spec fn index_of_name(fs: Seq<AsmFunction>, name: Seq<char>) -> int {
    choose|i: int| 0 <= i < fs.len() && (#[trigger] fs[i]).spec_name() == name
}

/// The functions keyed by name: a later function replaces an earlier one of
/// the same name in its place.
pub open spec fn collect(fs: Seq<AsmFunction>) -> Seq<AsmFunction>
    decreases fs.len(),
{
    if fs.len() == 0 {
        Seq::empty()
    } else {
        let prev = collect(fs.drop_last());
        let f = fs.last();
        if has_name(prev, f.spec_name()) {
            prev.update(index_of_name(prev, f.spec_name()), f)
        } else {
            prev.push(f)
        }
    }
}

/// No two functions share a name.
pub open spec fn distinct_names(fs: Seq<AsmFunction>) -> bool {
    forall|i: int, j: int|
        0 <= i < fs.len() && 0 <= j < fs.len() && i != j ==> (#[trigger] fs[i]).spec_name()
            != (#[trigger] fs[j]).spec_name()
}

/// A set of assembled functions keyed by name.
pub struct AsmFolder {
    functions: Vec<AsmFunction>,
}

impl AsmFolder {
    pub closed spec fn spec_functions(&self) -> Seq<AsmFunction> {
        self.functions@
    }

    /// Keys `functions` by name; of several with one name, the last is kept.
    pub fn new(functions: Vec<AsmFunction>) -> (r: Self)
        ensures
            r.spec_functions() == collect(functions@),
            distinct_names(r.spec_functions()),
    {
        let mut input = functions;
        let mut reversed: Vec<AsmFunction> = Vec::new();
        let ghost fs = input@;
        while input.len() > 0
            invariant
                input@.len() <= fs.len(),
                input@ =~= fs.take(input@.len() as int),
                reversed@ =~= fs.skip(input@.len() as int).reverse(),
            decreases input@.len(),
        {
            let f = input.pop().unwrap();
            reversed.push(f);
            assert(reversed@ =~= fs.skip(input@.len() as int).reverse());
        }
        let mut out: Vec<AsmFunction> = Vec::new();
        let mut i: usize = 0;
        let total = reversed.len();
        while reversed.len() > 0
            invariant
                total == fs.len(),
                i <= fs.len(),
                reversed@.len() == fs.len() - i,
                reversed@ =~= fs.skip(i as int).reverse(),
                out@ == collect(fs.take(i as int)),
                distinct_names(out@),
            decreases reversed@.len(),
        {
            let f = reversed.pop().unwrap();
            assert(f == fs[i as int]);
            let ghost prefix = fs.take(i + 1);
            assert(prefix.drop_last() =~= fs.take(i as int));
            assert(prefix.last() == f);
            let mut k: usize = 0;
            let mut found: Option<usize> = None;
            while k < out.len()
                invariant
                    k <= out@.len(),
                    distinct_names(out@),
                    found is None ==> forall|j: int|
                        0 <= j < k ==> (#[trigger] out@[j]).spec_name() != f.spec_name(),
                    found matches Some(m) ==> m < out@.len() && out@[m as int].spec_name()
                        == f.spec_name(),
                decreases out@.len() - k,
            {
                if found.is_none() && str_equals(out[k].name.as_str(), f.name.as_str()) {
                    found = Some(k);
                }
                k = k + 1;
            }
            let ghost prev = out@;
            match found {
                Some(m) => {
                    proof {
                        assert(has_name(prev, f.spec_name()));
                        let w = index_of_name(prev, f.spec_name());
                        if w != m {
                            assert(prev[w].spec_name() != prev[m as int].spec_name());
                        }
                    }
                    out.set(m, f);
                    proof {
                        assert forall|a: int, b: int|
                            0 <= a < out@.len() && 0 <= b < out@.len() && a != b implies (
                            #[trigger] out@[a]).spec_name() != (#[trigger] out@[b]).spec_name() by {
                            assert(prev[a].spec_name() != prev[b].spec_name());
                        }
                    }
                },
                None => {
                    proof {
                        assert(!has_name(prev, f.spec_name()));
                    }
                    out.push(f);
                    proof {
                        assert forall|a: int, b: int|
                            0 <= a < out@.len() && 0 <= b < out@.len() && a != b implies (
                            #[trigger] out@[a]).spec_name() != (#[trigger] out@[b]).spec_name() by {
                            if a < prev.len() && b < prev.len() {
                                assert(prev[a].spec_name() != prev[b].spec_name());
                            } else if a < prev.len() {
                                assert(prev[a].spec_name() != f.spec_name());
                            } else if b < prev.len() {
                                assert(prev[b].spec_name() != f.spec_name());
                            }
                        }
                    }
                },
            }
            i = i + 1;
        }
        assert(fs.take(fs.len() as int) =~= fs);
        Self { functions: out }
    }

    /// A copy of the function named `name`.
    pub fn get_function(&self, name: &str) -> (r: AsmFunction)
        requires
            has_name(self.spec_functions(), name@),
        ensures
            r.same_as(self.spec_functions()[index_of_name(self.spec_functions(), name@)]),
    {
        proof {
            use_type_invariant(self);
        }
        let ghost fs = self.functions@;
        let mut i: usize = 0;
        while i < self.functions.len()
            invariant
                i <= fs.len(),
                fs == self.functions@,
                distinct_names(fs),
                has_name(fs, name@),
                forall|j: int| 0 <= j < i ==> (#[trigger] fs[j]).spec_name() != name@,
            decreases fs.len() - i,
        {
            if str_equals(self.functions[i].name.as_str(), name) {
                proof {
                    let w = index_of_name(fs, name@);
                    if w != i {
                        assert(fs[w].spec_name() != fs[i as int].spec_name());
                    }
                }
                return self.functions[i].duplicate();
            }
            i = i + 1;
        }
        proof {
            let k = choose|k: int| 0 <= k < fs.len() && (#[trigger] fs[k]).spec_name() == name@;
            assert(fs[k].spec_name() != name@);
        }
        self.functions[0].duplicate()
    }

    #[verifier::type_invariant]
    spec fn names_are_distinct(self) -> bool {
        distinct_names(self.functions@)
    }
}

} // verus!
