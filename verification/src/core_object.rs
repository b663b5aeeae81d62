use vstd::prelude::*;
use crate::attached::parse::str_equals;

verus! {

/// A symbol that a piece of machine code refers to, and where in the code.
pub struct Relocation {
    pub symbol: String,
    pub offset: u64,
}

/// Assembled machine code, with its relocations.
pub struct AsmFunction {
    pub name: String,
    pub bytes: Vec<u8>,
    pub relocations: Vec<Relocation>,
}

/// A set of assembled functions, looked up by name.
pub struct AsmFolder {
    pub functions: Vec<AsmFunction>,
}

/// The index of the first relocation for `symbol`.
pub open spec fn first_reloc(relocs: Seq<Relocation>, symbol: Seq<char>) -> int {
    choose|i: int|
        0 <= i < relocs.len() && (#[trigger] relocs[i]).symbol@ == symbol && forall|j: int|
            0 <= j < i ==> (#[trigger] relocs[j]).symbol@ != symbol
}

/// The index of the first function named `name`.
pub open spec fn first_function(fs: Seq<AsmFunction>, name: Seq<char>) -> int {
    choose|i: int|
        0 <= i < fs.len() && (#[trigger] fs[i]).name@ == name && forall|j: int|
            0 <= j < i ==> (#[trigger] fs[j]).name@ != name
}

impl AsmFunction {
    /// The offset of the first relocation for `name`.
    pub fn reloc(&self, name: &str) -> (r: u64)
        requires
            exists|i: int|
                0 <= i < self.relocations@.len() && (#[trigger] self.relocations@[i]).symbol@
                    == name@,
        ensures
            r == self.relocations@[first_reloc(self.relocations@, name@)].offset,
    {
        let ghost rs = self.relocations@;
        let mut i: usize = 0;
        while i < self.relocations.len()
            invariant
                i <= rs.len(),
                rs == self.relocations@,
                exists|k: int| 0 <= k < rs.len() && (#[trigger] rs[k]).symbol@ == name@,
                forall|j: int| 0 <= j < i ==> (#[trigger] rs[j]).symbol@ != name@,
            decreases rs.len() - i,
        {
            if str_equals(self.relocations[i].symbol.as_str(), name) {
                proof {
                    let w = first_reloc(rs, name@);
                    assert(0 <= i < rs.len() && rs[i as int].symbol@ == name@);
                    if w < i {
                        assert(rs[w].symbol@ != name@);
                    }
                    if i < w {
                        assert(rs[i as int].symbol@ != name@);
                    }
                }
                return self.relocations[i].offset;
            }
            i = i + 1;
        }
        proof {
            let k = choose|k: int| 0 <= k < rs.len() && (#[trigger] rs[k]).symbol@ == name@;
            assert(rs[k].symbol@ != name@);
        }
        0
    }
}

impl AsmFolder {
    /// The first function named `name`.
    pub fn get_function(&self, name: &str) -> (r: &AsmFunction)
        requires
            exists|i: int|
                0 <= i < self.functions@.len() && (#[trigger] self.functions@[i]).name@ == name@,
        ensures
            *r == self.functions@[first_function(self.functions@, name@)],
    {
        let ghost fs = self.functions@;
        let mut i: usize = 0;
        while i < self.functions.len()
            invariant
                i <= fs.len(),
                fs == self.functions@,
                exists|k: int| 0 <= k < fs.len() && (#[trigger] fs[k]).name@ == name@,
                forall|j: int| 0 <= j < i ==> (#[trigger] fs[j]).name@ != name@,
            decreases fs.len() - i,
        {
            if str_equals(self.functions[i].name.as_str(), name) {
                proof {
                    let w = first_function(fs, name@);
                    assert(0 <= i < fs.len() && fs[i as int].name@ == name@);
                    if w < i {
                        assert(fs[w].name@ != name@);
                    }
                    if i < w {
                        assert(fs[i as int].name@ != name@);
                    }
                }
                return &self.functions[i];
            }
            i = i + 1;
        }
        proof {
            let k = choose|k: int| 0 <= k < fs.len() && (#[trigger] fs[k]).name@ == name@;
            assert(fs[k].name@ != name@);
        }
        &self.functions[0]
    }
}

} // verus!
