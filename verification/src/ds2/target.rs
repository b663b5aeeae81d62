use vstd::prelude::*;
use crate::patch::{Patch, plan_of};
use crate::slice_ops::{
    SliceError, built, copy_template, get_hook_bytes, hook_bytes, then_write_rel,
    then_write_u32_of, u32_from_u64, write_rel_i32, write_to_slice,
};

verus! {

/// The instruction that the target hook overwrites, as the game has it.
pub open spec fn unpatched_locked_target(is_scholar: bool) -> Seq<u8> {
    if is_scholar {
        seq![0x48u8, 0x89u8, 0xBBu8, 0xC0u8, 0x00u8, 0x00u8, 0x00u8]
    } else {
        seq![0x89u8, 0xB7u8, 0xB8u8, 0x00u8, 0x00u8, 0x00u8]
    }
}

/// The length of the instruction that the target hook overwrites.
pub open spec fn target_hook_size(is_scholar: bool) -> usize {
    if is_scholar {
        7
    } else {
        6
    }
}

/// The game's own bytes at the locked-target instruction.
pub fn unpatched_locked_target_bytes(is_scholar: bool) -> (r: Vec<u8>)
    ensures
        r@ == unpatched_locked_target(is_scholar),
{
    if is_scholar {
        let r: Vec<u8> = vec![0x48, 0x89, 0xBB, 0xC0, 0x00, 0x00, 0x00];
        assert(r@ =~= unpatched_locked_target(is_scholar));
        r
    } else {
        let r: Vec<u8> = vec![0x89, 0xB7, 0xB8, 0x00, 0x00, 0x00];
        assert(r@ =~= unpatched_locked_target(is_scholar));
        r
    }
}

/// The code that saves each locked-on target at `pointer_location` and then
/// returns to the instruction after the hook.
pub open spec fn target_hook_code(
    is_scholar: bool,
    template: Seq<u8>,
    location: u64,
    pointer_location: u64,
    locked_target: u64,
) -> Result<Seq<u8>, SliceError> {
    if is_scholar {
        then_write_rel(
            then_write_rel(Ok(template), 3, pointer_location, location + 7),
            15,
            (locked_target + 7) as u64,
            location + 19,
        )
    } else {
        then_write_rel(
            then_write_u32_of(Ok(template), 8, pointer_location),
            13,
            (locked_target + 6) as u64,
            location + 17,
        )
    }
}

/// The writes that install the target hook: the code at `location`, then
/// the jump to it over the locked-target instruction.
pub open spec fn target_hook_writes(
    is_scholar: bool,
    template: Seq<u8>,
    location: u64,
    pointer_location: u64,
    locked_target: u64,
) -> Result<Seq<(u64, Seq<u8>)>, SliceError> {
    match target_hook_code(is_scholar, template, location, pointer_location, locked_target) {
        Err(e) => Err(e),
        Ok(code) => if i32::MIN <= location - (locked_target + 5) <= i32::MAX {
            Ok(
                seq![
                    (location, code),
                    (locked_target, hook_bytes(location, locked_target, target_hook_size(is_scholar))),
                ],
            )
        } else {
            Err(SliceError::RelativeOutOfRange)
        },
    }
}

fn target_hook_asm(
    is_scholar: bool,
    template: &Vec<u8>,
    location: u64,
    pointer_location: u64,
    locked_target: u64,
) -> (r: Result<Vec<u8>, SliceError>)
    requires
        location + 19 <= u64::MAX,
        locked_target + 7 <= u64::MAX,
    ensures
        built(r, target_hook_code(is_scholar, template@, location, pointer_location, locked_target)),
{
    let mut code = copy_template(template);
    if is_scholar {
        write_rel_i32(&mut code, location, 3, pointer_location, 4)?;
        write_rel_i32(&mut code, location, 15, locked_target + 7, 4)?;
    } else {
        let pointer = u32_from_u64(pointer_location)?;
        write_to_slice::<u32>(&mut code, 8, pointer)?;
        write_rel_i32(&mut code, location, 13, locked_target + 6, 4)?;
    }
    Ok(code)
}

/// Installs the hook that saves the locked-on target: the `save_target_hook`
/// template of the edition, patched for `location` and `pointer_location`,
/// goes to `location`, and a jump to it over the instruction at
/// `locked_target`.
pub fn install_target_hook(
    is_scholar: bool,
    template: &Vec<u8>,
    location: u64,
    pointer_location: u64,
    locked_target: u64,
) -> (r: Patch)
    requires
        location + 19 <= u64::MAX,
        locked_target + 7 <= u64::MAX,
    ensures
        crate::patch::patch_is(
            r,
            plan_of(target_hook_writes(is_scholar, template@, location, pointer_location, locked_target)),
        ),
{
    let code = match target_hook_asm(is_scholar, template, location, pointer_location, locked_target) {
        Ok(c) => c,
        Err(e) => return Patch::failed(e),
    };
    let size: usize = if is_scholar { 7 } else { 6 };
    let hook = match get_hook_bytes(location, locked_target, size) {
        Ok(h) => h,
        Err(e) => return Patch::failed(e),
    };
    Patch::pair(location, code, locked_target, hook)
}

/// Whether the bytes at the locked-target instruction show the hook: they
/// differ from the game's own instruction.
pub fn is_target_hook_active(is_scholar: bool, current: &[u8]) -> (r: bool)
    ensures
        r == (current@ != unpatched_locked_target(is_scholar)),
{
    let original = unpatched_locked_target_bytes(is_scholar);
    !bytes_equal(current, original.as_slice())
}

/// Whether two byte strings are the same.
pub fn bytes_equal(a: &[u8], b: &[u8]) -> (r: bool)
    ensures
        r == (a@ == b@),
{
    if a.len() != b.len() {
        return false;
    }
    let mut i: usize = 0;
    while i < a.len()
        invariant
            i <= a@.len(),
            a@.len() == b@.len(),
            forall|j: int| 0 <= j < i ==> a@[j] == b@[j],
        decreases a@.len() - i,
    {
        if a[i] != b[i] {
            return false;
        }
        i = i + 1;
    }
    assert(a@ =~= b@);
    true
}

/// An installed target hook is reported active: the jump it writes over the
/// locked-target instruction differs from the game's instruction.
pub proof fn lemma_installed_target_hook_is_active(
    is_scholar: bool,
    template: Seq<u8>,
    location: u64,
    pointer_location: u64,
    locked_target: u64,
)
    requires
        target_hook_writes(is_scholar, template, location, pointer_location, locked_target) is Ok,
    ensures
        ({
            let ws = target_hook_writes(is_scholar, template, location, pointer_location, locked_target)->Ok_0;
            &&& ws.len() == 2
            &&& ws[1].0 == locked_target
            &&& ws[1].1 != unpatched_locked_target(is_scholar)
        }),
{
    let h = hook_bytes(location, locked_target, target_hook_size(is_scholar));
    assert(h[0] == 0xE9u8);
    assert(unpatched_locked_target(is_scholar)[0] != 0xE9u8);
}

} // verus!
