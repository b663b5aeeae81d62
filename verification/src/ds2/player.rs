use vstd::prelude::*;
use crate::slice_ops::{
    SliceError, built, copy_template, i32_bits, i64_bits, then_write, then_write_u32_of,
    u32_from_u64, write_to_slice,
};

verus! {

/// The address of the pointer to the player's character controller, given
/// the address of the game manager and the controller's offset in it.
pub open spec fn player_ctrl_slot(game_manager: u64, player_ctrl_offset: u64) -> Option<u64> {
    if game_manager + player_ctrl_offset <= u64::MAX {
        Some((game_manager + player_ctrl_offset) as u64)
    } else {
        None
    }
}

/// Where the pointer to the player's character controller is read from:
/// `None` when the address does not fit.
pub fn player_ctrl(game_manager: u64, player_ctrl_offset: u64) -> (r: Option<u64>)
    ensures
        r == player_ctrl_slot(game_manager, player_ctrl_offset),
{
    game_manager.checked_add(player_ctrl_offset)
}

/// The code that gives `amount` souls: the template of the edition with the
/// stats pointer, the amount and the game's function patched in.
///
/// In the 64-bit edition the stats pointer goes at 2, the amount as a 64-bit
/// value at 12 and the function at 22; in the 32-bit edition the amount goes
/// at 1, and the stats pointer and the function, which must fit in 32 bits,
/// at 7 and 12.
pub open spec fn give_souls_code(
    is_scholar: bool,
    template: Seq<u8>,
    stats_pointer: u64,
    amount: i32,
    give_souls_fn: u64,
) -> Result<Seq<u8>, SliceError> {
    if is_scholar {
        then_write(
            then_write(
                then_write(Ok(template), 2, stats_pointer as nat, 8),
                12,
                i64_bits(amount as int),
                8,
            ),
            22,
            give_souls_fn as nat,
            8,
        )
    } else {
        then_write_u32_of(
            then_write_u32_of(
                then_write(Ok(template), 1, i32_bits(amount as int), 4),
                7,
                stats_pointer,
            ),
            12,
            give_souls_fn,
        )
    }
}

/// Builds the code that gives `amount` souls to the player, from the
/// `give_souls` template of the edition. The code that sets a completion
/// flag after it runs is not included: the caller appends it before the
/// code is written and run.
pub fn give_souls(
    is_scholar: bool,
    template: &Vec<u8>,
    stats_pointer: u64,
    amount: i32,
    give_souls_fn: u64,
) -> (r: Result<Vec<u8>, SliceError>)
    ensures
        built(r, give_souls_code(is_scholar, template@, stats_pointer, amount, give_souls_fn)),
{
    let mut code = copy_template(template);
    if is_scholar {
        write_to_slice::<u64>(&mut code, 2, stats_pointer)?;
        write_to_slice::<i64>(&mut code, 12, amount as i64)?;
        write_to_slice::<u64>(&mut code, 22, give_souls_fn)?;
    } else {
        write_to_slice::<i32>(&mut code, 1, amount)?;
        let stats = u32_from_u64(stats_pointer)?;
        write_to_slice::<u32>(&mut code, 7, stats)?;
        let function = u32_from_u64(give_souls_fn)?;
        write_to_slice::<u32>(&mut code, 12, function)?;
    }
    Ok(code)
}

} // verus!
