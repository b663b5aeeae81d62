use vstd::prelude::*;
use crate::attached::parse::str_equals;

verus! {

/// A copy of a byte vector.
pub fn copy_bytes(v: &Vec<u8>) -> (r: Vec<u8>)
    ensures
        r@ == v@,
{
    let mut out: Vec<u8> = Vec::new();
    let mut i: usize = 0;
    while i < v.len()
        invariant
            i <= v@.len(),
            out@ == v@.take(i as int),
        decreases v@.len() - i,
    {
        out.push(v[i]);
        i = i + 1;
        assert(out@ =~= v@.take(i as int));
    }
    assert(v@.take(v@.len() as int) =~= v@);
    out
}

/// A symbol that a piece of machine code refers to, and where in the code.
pub struct Relocation {
    symbol: String,
    offset: u64,
}

impl Relocation {
    pub closed spec fn spec_symbol(&self) -> Seq<char> {
        self.symbol@
    }

    pub closed spec fn spec_offset(&self) -> u64 {
        self.offset
    }

    pub fn new(symbol: String, offset: u64) -> (r: Self)
        ensures
            r.spec_symbol() == symbol@,
            r.spec_offset() == offset,
    {
        Self { symbol, offset }
    }
}

/// Assembled machine code, with its relocations.
pub struct AsmFunction {
    name: String,
    bytes: Vec<u8>,
    relocations: Vec<Relocation>,
}

/// The index of the first relocation for `symbol`.
pub open spec fn first_reloc(relocs: Seq<Relocation>, symbol: Seq<char>) -> int {
    choose|i: int|
        0 <= i < relocs.len() && (#[trigger] relocs[i]).spec_symbol() == symbol && forall|j: int|
            0 <= j < i ==> (#[trigger] relocs[j]).spec_symbol() != symbol
}

/// Whether some relocation is for `symbol`.
pub open spec fn has_reloc(relocs: Seq<Relocation>, symbol: Seq<char>) -> bool {
    exists|i: int| 0 <= i < relocs.len() && (#[trigger] relocs[i]).spec_symbol() == symbol
}

impl AsmFunction {
    pub closed spec fn spec_name(&self) -> Seq<char> {
        self.name@
    }

    pub closed spec fn spec_bytes(&self) -> Seq<u8> {
        self.bytes@
    }

    pub closed spec fn spec_relocations(&self) -> Seq<Relocation> {
        self.relocations@
    }

    pub fn new(name: String, bytes: Vec<u8>, relocations: Vec<Relocation>) -> (r: Self)
        ensures
            r.spec_name() == name@,
            r.spec_bytes() == bytes@,
            r.spec_relocations() == relocations@,
    {
        Self { name, bytes, relocations }
    }

    /// A copy of the machine code.
    pub fn get_bytes(&self) -> (r: Vec<u8>)
        ensures
            r@ == self.spec_bytes(),
    {
        copy_bytes(&self.bytes)
    }

    /// The offset of the first relocation for `name`.
    pub fn reloc(&self, name: &str) -> (r: u64)
        requires
            has_reloc(self.spec_relocations(), name@),
        ensures
            r == self.spec_relocations()[first_reloc(self.spec_relocations(), name@)].spec_offset(),
    {
        let ghost rs = self.relocations@;
        let mut i: usize = 0;
        while i < self.relocations.len()
            invariant
                i <= rs.len(),
                rs == self.relocations@,
                has_reloc(rs, name@),
                forall|j: int| 0 <= j < i ==> (#[trigger] rs[j]).spec_symbol() != name@,
            decreases rs.len() - i,
        {
            if str_equals(self.relocations[i].symbol.as_str(), name) {
                proof {
                    let w = first_reloc(rs, name@);
                    assert(0 <= i < rs.len() && rs[i as int].spec_symbol() == name@);
                    if w < i {
                        assert(rs[w].spec_symbol() != name@);
                    }
                    if i < w {
                        assert(rs[i as int].spec_symbol() != name@);
                    }
                }
                return self.relocations[i].offset;
            }
            i = i + 1;
        }
        proof {
            let k = choose|k: int| 0 <= k < rs.len() && (#[trigger] rs[k]).spec_symbol() == name@;
            assert(rs[k].spec_symbol() != name@);
        }
        0
    }
}

/// A set of assembled functions, looked up by name.
pub struct AsmFolder {
    functions: Vec<AsmFunction>,
}

/// The index of the first function named `name`.
pub open spec fn first_function(fs: Seq<AsmFunction>, name: Seq<char>) -> int {
    choose|i: int|
        0 <= i < fs.len() && (#[trigger] fs[i]).spec_name() == name && forall|j: int|
            0 <= j < i ==> (#[trigger] fs[j]).spec_name() != name
}

/// Whether some function is named `name`.
pub open spec fn has_function(fs: Seq<AsmFunction>, name: Seq<char>) -> bool {
    exists|i: int| 0 <= i < fs.len() && (#[trigger] fs[i]).spec_name() == name
}

impl AsmFolder {
    pub closed spec fn spec_functions(&self) -> Seq<AsmFunction> {
        self.functions@
    }

    pub fn new(functions: Vec<AsmFunction>) -> (r: Self)
        ensures
            r.spec_functions() == functions@,
    {
        Self { functions }
    }

    /// The first function named `name`.
    pub fn get_function(&self, name: &str) -> (r: &AsmFunction)
        requires
            has_function(self.spec_functions(), name@),
        ensures
            *r == self.spec_functions()[first_function(self.spec_functions(), name@)],
    {
        let ghost fs = self.functions@;
        let mut i: usize = 0;
        while i < self.functions.len()
            invariant
                i <= fs.len(),
                fs == self.functions@,
                has_function(fs, name@),
                forall|j: int| 0 <= j < i ==> (#[trigger] fs[j]).spec_name() != name@,
            decreases fs.len() - i,
        {
            if str_equals(self.functions[i].name.as_str(), name) {
                proof {
                    let w = first_function(fs, name@);
                    assert(0 <= i < fs.len() && fs[i as int].spec_name() == name@);
                    if w < i {
                        assert(fs[w].spec_name() != name@);
                    }
                    if i < w {
                        assert(fs[i as int].spec_name() != name@);
                    }
                }
                return &self.functions[i];
            }
            i = i + 1;
        }
        proof {
            let k = choose|k: int| 0 <= k < fs.len() && (#[trigger] fs[k]).spec_name() == name@;
            assert(fs[k].spec_name() != name@);
        }
        &self.functions[0]
    }
}

} // verus!
