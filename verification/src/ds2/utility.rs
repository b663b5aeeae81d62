use vstd::prelude::*;
use crate::patch::{Patch, PatchPlan, apply_writes, lemma_read_last_write, plan_of, read_memory};
use crate::slice_ops::{
    SliceError, built, copy_template, get_hook_bytes, hook_bytes, i32_bits, lemma_le_bytes_len, then_write_rel,
    then_write_u32_of, u32_from_u64, write_rel_i32, write_to_slice,
};
use crate::ds2::target::bytes_equal;

verus! {

/// The value that makes the game quit to the main menu.
pub const QUITOUT_VALUE: u8 = 6;

/// Quits to the main menu: writes the quit-out value into the game manager
/// at `game_manager + quitout_offset`.
pub fn quitout(game_manager: u64, quitout_offset: u64) -> (r: Patch)
    requires
        game_manager + quitout_offset <= u64::MAX,
    ensures
        crate::patch::patch_is(r, (seq![((game_manager + quitout_offset) as u64, seq![QUITOUT_VALUE])], None)),
{
    let bytes: Vec<u8> = vec![QUITOUT_VALUE];
    assert(bytes@ =~= seq![QUITOUT_VALUE]);
    Patch::single(game_manager + quitout_offset, bytes)
}

/// The instruction that the menu hook overwrites, as the game has it.
pub open spec fn unpatched_faster_menu(is_scholar: bool) -> Seq<u8> {
    if is_scholar {
        seq![0x48u8, 0x89u8, 0x84u8, 0x24u8, 0x50u8, 0x01u8, 0x00u8, 0x00u8]
    } else {
        seq![0x33u8, 0xC5u8, 0x89u8, 0x45u8, 0xFCu8]
    }
}

/// The length of the instruction that the menu hook overwrites.
pub open spec fn faster_menu_size(is_scholar: bool) -> usize {
    if is_scholar {
        8
    } else {
        5
    }
}

/// The game's own bytes at the menu instruction.
pub fn unpatched_faster_menu_bytes(is_scholar: bool) -> (r: Vec<u8>)
    ensures
        r@ == unpatched_faster_menu(is_scholar),
{
    if is_scholar {
        let r: Vec<u8> = vec![0x48, 0x89, 0x84, 0x24, 0x50, 0x01, 0x00, 0x00];
        assert(r@ =~= unpatched_faster_menu(is_scholar));
        r
    } else {
        let r: Vec<u8> = vec![0x33, 0xC5, 0x89, 0x45, 0xFC];
        assert(r@ =~= unpatched_faster_menu(is_scholar));
        r
    }
}

/// The menu code: it skips the fade, then jumps back to the instruction after
/// the hook at `faster_menu`.
pub open spec fn faster_menu_code(is_scholar: bool, template: Seq<u8>, location: u64, faster_menu: u64) -> Result<
    Seq<u8>,
    SliceError,
> {
    if is_scholar {
        then_write_rel(Ok(template), 22, (faster_menu + 8) as u64, location + 26)
    } else {
        then_write_rel(Ok(template), 16, (faster_menu + 5) as u64, location + 20)
    }
}

/// The writes that switch the faster menu on or off.
pub open spec fn faster_menu_writes(
    state: bool,
    is_scholar: bool,
    template: Seq<u8>,
    location: u64,
    faster_menu: u64,
) -> Result<Seq<(u64, Seq<u8>)>, SliceError> {
    if !state {
        Ok(seq![(faster_menu, unpatched_faster_menu(is_scholar))])
    } else {
        match faster_menu_code(is_scholar, template, location, faster_menu) {
            Err(e) => Err(e),
            Ok(code) => if i32::MIN <= location - (faster_menu + 5) <= i32::MAX {
                Ok(
                    seq![
                        (location, code),
                        (faster_menu, hook_bytes(location, faster_menu, faster_menu_size(is_scholar))),
                    ],
                )
            } else {
                Err(SliceError::RelativeOutOfRange)
            },
        }
    }
}

/// Switches the faster menu on, by putting the `faster_menu` template of the
/// edition at `location` and a jump to it over the menu instruction, or off,
/// by writing the instruction back.
pub fn set_faster_menu(
    state: bool,
    is_scholar: bool,
    template: &Vec<u8>,
    location: u64,
    faster_menu: u64,
) -> (r: Patch)
    requires
        location + 26 <= u64::MAX,
        faster_menu + 8 <= u64::MAX,
    ensures
        crate::patch::patch_is(
            r,
            plan_of(faster_menu_writes(state, is_scholar, template@, location, faster_menu)),
        ),
{
    if !state {
        return Patch::single(faster_menu, unpatched_faster_menu_bytes(is_scholar));
    }
    let mut code = copy_template(template);
    let written = if is_scholar {
        write_rel_i32(&mut code, location, 22, faster_menu + 8, 4)
    } else {
        write_rel_i32(&mut code, location, 16, faster_menu + 5, 4)
    };
    if let Err(e) = written {
        return Patch::failed(e);
    }
    let size: usize = if is_scholar { 8 } else { 5 };
    let hook = match get_hook_bytes(location, faster_menu, size) {
        Ok(h) => h,
        Err(e) => return Patch::failed(e),
    };
    Patch::pair(location, code, faster_menu, hook)
}

/// Whether the bytes at the menu instruction show the hook.
pub fn is_faster_menu(is_scholar: bool, current: &[u8]) -> (r: bool)
    ensures
        r == (current@ != unpatched_faster_menu(is_scholar)),
{
    let original = unpatched_faster_menu_bytes(is_scholar);
    !bytes_equal(current, original.as_slice())
}

/// The instruction that the credits hook overwrites, as the game has it.
pub open spec fn unpatched_credits_skip(is_scholar: bool) -> Seq<u8> {
    if is_scholar {
        seq![0x48u8, 0x81u8, 0xECu8, 0x20u8, 0x02u8, 0x00u8, 0x00u8]
    } else {
        seq![0x81u8, 0xECu8, 0xFCu8, 0x01u8, 0x00u8, 0x00u8]
    }
}

/// The length of the instruction that the credits hook overwrites.
pub open spec fn credits_skip_size(is_scholar: bool) -> usize {
    if is_scholar {
        7
    } else {
        6
    }
}

/// The game's own bytes at the credits instruction.
pub fn unpatched_credits_skip_bytes(is_scholar: bool) -> (r: Vec<u8>)
    ensures
        r@ == unpatched_credits_skip(is_scholar),
{
    if is_scholar {
        let r: Vec<u8> = vec![0x48, 0x81, 0xEC, 0x20, 0x02, 0x00, 0x00];
        assert(r@ =~= unpatched_credits_skip(is_scholar));
        r
    } else {
        let r: Vec<u8> = vec![0x81, 0xEC, 0xFC, 0x01, 0x00, 0x00];
        assert(r@ =~= unpatched_credits_skip(is_scholar));
        r
    }
}

/// The credits code: it skips the credits once, keeping its state in the
/// flag at `modify_once`, then jumps back after the hook at `credits_skip`.
pub open spec fn credits_skip_code(
    is_scholar: bool,
    template: Seq<u8>,
    location: u64,
    modify_once: u64,
    credits_skip: u64,
) -> Result<Seq<u8>, SliceError> {
    if is_scholar {
        then_write_rel(
            then_write_rel(
                then_write_rel(Ok(template), 9, modify_once, location + 14),
                25,
                modify_once,
                location + 33,
            ),
            34,
            (credits_skip + 7) as u64,
            location + 38,
        )
    } else {
        then_write_rel(
            then_write_u32_of(then_write_u32_of(Ok(template), 8, modify_once), 24, modify_once),
            33,
            (credits_skip + 6) as u64,
            location + 37,
        )
    }
}

/// The change that switches the credits skip on or off. Switching it on
/// first clears the flag at `modify_once`; that write stands even when the
/// code cannot be built.
pub open spec fn credits_skip_plan(
    state: bool,
    is_scholar: bool,
    template: Seq<u8>,
    location: u64,
    modify_once: u64,
    credits_skip: u64,
) -> PatchPlan {
    if !state {
        (seq![(credits_skip, unpatched_credits_skip(is_scholar))], None)
    } else {
        let clear = (modify_once, seq![0u8]);
        match credits_skip_code(is_scholar, template, location, modify_once, credits_skip) {
            Err(e) => (seq![clear], Some(e)),
            Ok(code) => if i32::MIN <= location - (credits_skip + 5) <= i32::MAX {
                (
                    seq![
                        clear,
                        (location, code),
                        (credits_skip, hook_bytes(location, credits_skip, credits_skip_size(is_scholar))),
                    ],
                    None,
                )
            } else {
                (seq![clear], Some(SliceError::RelativeOutOfRange))
            },
        }
    }
}

fn credits_skip_asm(
    is_scholar: bool,
    template: &Vec<u8>,
    location: u64,
    modify_once: u64,
    credits_skip: u64,
) -> (r: Result<Vec<u8>, SliceError>)
    requires
        location + 38 <= u64::MAX,
        credits_skip + 7 <= u64::MAX,
    ensures
        built(r, credits_skip_code(is_scholar, template@, location, modify_once, credits_skip)),
{
    let mut code = copy_template(template);
    if is_scholar {
        write_rel_i32(&mut code, location, 9, modify_once, 5)?;
        write_rel_i32(&mut code, location, 25, modify_once, 8)?;
        write_rel_i32(&mut code, location, 34, credits_skip + 7, 4)?;
    } else {
        let flag = u32_from_u64(modify_once)?;
        write_to_slice::<u32>(&mut code, 8, flag)?;
        let flag = u32_from_u64(modify_once)?;
        write_to_slice::<u32>(&mut code, 24, flag)?;
        write_rel_i32(&mut code, location, 33, credits_skip + 6, 4)?;
    }
    Ok(code)
}

/// Switches the credits skip on, by clearing the flag at `modify_once` and
/// putting the `credits_skip` template of the edition at `location` with a
/// jump to it over the credits instruction, or off, by writing the
/// instruction back.
pub fn set_credits_skip(
    state: bool,
    is_scholar: bool,
    template: &Vec<u8>,
    location: u64,
    modify_once: u64,
    credits_skip: u64,
) -> (r: Patch)
    requires
        location + 38 <= u64::MAX,
        credits_skip + 7 <= u64::MAX,
    ensures
        crate::patch::patch_is(
            r,
            credits_skip_plan(state, is_scholar, template@, location, modify_once, credits_skip),
        ),
{
    if !state {
        return Patch::single(credits_skip, unpatched_credits_skip_bytes(is_scholar));
    }
    let clear: Vec<u8> = vec![0];
    assert(clear@ =~= seq![0u8]);
    let code = match credits_skip_asm(is_scholar, template, location, modify_once, credits_skip) {
        Ok(c) => c,
        Err(e) => return Patch::after(Patch::single(modify_once, clear), e),
    };
    let size: usize = if is_scholar { 7 } else { 6 };
    let hook = match get_hook_bytes(location, credits_skip, size) {
        Ok(h) => h,
        Err(e) => return Patch::after(Patch::single(modify_once, clear), e),
    };
    Patch::triple(modify_once, clear, location, code, credits_skip, hook)
}

/// Whether the bytes at the credits instruction show the hook.
pub fn is_credits_skip(is_scholar: bool, current: &[u8]) -> (r: bool)
    ensures
        r == (current@ != unpatched_credits_skip(is_scholar)),
{
    let original = unpatched_credits_skip_bytes(is_scholar);
    !bytes_equal(current, original.as_slice())
}

/// Switching the faster menu off and then asking gives "off"; switching it on,
/// when that succeeds, and then asking gives "on": whatever the memory held,
/// once the switch's writes are made, the bytes at the menu instruction
/// differ from the game's own exactly when the menu was switched on.
pub proof fn lemma_faster_menu_round_trip(
    state: bool,
    is_scholar: bool,
    template: Seq<u8>,
    location: u64,
    faster_menu: u64,
    mem: spec_fn(int) -> u8,
)
    requires
        faster_menu_writes(state, is_scholar, template, location, faster_menu) is Ok,
    ensures
        ({
            let ws = faster_menu_writes(state, is_scholar, template, location, faster_menu)->Ok_0;
            let read = read_memory(apply_writes(mem, ws), faster_menu as int, unpatched_faster_menu(is_scholar).len());
            (read != unpatched_faster_menu(is_scholar)) == state
        }),
{
    let ws = faster_menu_writes(state, is_scholar, template, location, faster_menu)->Ok_0;
    if state {
        let h = hook_bytes(location, faster_menu, faster_menu_size(is_scholar));
        lemma_le_bytes_len(i32_bits(location - (faster_menu + 5)), 4);
        assert(h.len() == unpatched_faster_menu(is_scholar).len());
        assert(h[0] == 0xE9u8);
        assert(unpatched_faster_menu(is_scholar)[0] != 0xE9u8);
    }
    lemma_read_last_write(mem, ws);
}

/// Switching the credits skip off and then asking gives "off"; switching it
/// on, when that succeeds, and then asking gives "on": whatever the memory
/// held, once the switch's writes are made, the bytes at the credits
/// instruction differ from the game's own exactly when the skip was switched
/// on. Switching it on clears the once flag first.
pub proof fn lemma_credits_skip_round_trip(
    state: bool,
    is_scholar: bool,
    template: Seq<u8>,
    location: u64,
    modify_once: u64,
    credits_skip: u64,
    mem: spec_fn(int) -> u8,
)
    requires
        credits_skip_plan(state, is_scholar, template, location, modify_once, credits_skip).1 is None,
    ensures
        ({
            let ws = credits_skip_plan(state, is_scholar, template, location, modify_once, credits_skip).0;
            let read = read_memory(apply_writes(mem, ws), credits_skip as int, unpatched_credits_skip(is_scholar).len());
            &&& (read != unpatched_credits_skip(is_scholar)) == state
            &&& state ==> ws[0] == (modify_once, seq![0u8])
        }),
{
    let ws = credits_skip_plan(state, is_scholar, template, location, modify_once, credits_skip).0;
    if state {
        let h = hook_bytes(location, credits_skip, credits_skip_size(is_scholar));
        lemma_le_bytes_len(i32_bits(location - (credits_skip + 5)), 4);
        assert(h.len() == unpatched_credits_skip(is_scholar).len());
        assert(h[0] == 0xE9u8);
        assert(unpatched_credits_skip(is_scholar)[0] != 0xE9u8);
    }
    lemma_read_last_write(mem, ws);
}

} // verus!
