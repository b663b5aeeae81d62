use vstd::prelude::*;

verus! {

/// The label of a toggle: `[X]` when on, `[ ]` when off, a space, then the
/// text.
pub open spec fn toggle_string(s: Seq<char>, state: bool) -> Seq<char> {
    (if state {
        seq!['[', 'X', ']']
    } else {
        seq!['[', ' ', ']']
    }) + seq![' '] + s
}

/// The label of a toggle, as shown in the lists of the interface.
pub fn create_toggle_string(s: &str, state: bool) -> (r: String)
    ensures
        r@ == toggle_string(s@, state),
{
    let mut r = if state {
        String::from_str("[X] ")
    } else {
        String::from_str("[ ] ")
    };
    proof {
        reveal_strlit("[X] ");
        reveal_strlit("[ ] ");
    }
    r.append(s);
    proof {
        assert(r@ =~= toggle_string(s@, state));
    }
    r
}

} // verus!
