use vstd::prelude::*;
use crate::attached::parse::str_equals;
use crate::patch::{Patch, PatchPlan};
use crate::slice_ops::{
    SliceError, built, copy_template, get_hook_bytes, hook_bytes, i32_bits, i64_bits, then_write,
    then_write_rel, write_rel_i32, write_to_slice,
};

verus! {

/// Why a warp is refused before anything is written.
#[derive(Debug, Clone, Copy, PartialEq, Eq, Structural)]
pub enum WarpError {
    /// No character is loaded.
    CharacterNotLoaded,
    /// The destination is in the expansion, which is not owned.
    DlcNotOwned,
    /// The warp code could not be built.
    Build(SliceError),
}

/// Whether a warp may go ahead: a character must be loaded, and a
/// destination in the expansion needs the expansion.
pub open spec fn warp_check(character_loaded: bool, dlc: bool, dlc_owned: bool) -> Result<(), WarpError> {
    if !character_loaded {
        Err(WarpError::CharacterNotLoaded)
    } else if dlc && !dlc_owned {
        Err(WarpError::DlcNotOwned)
    } else {
        Ok(())
    }
}

/// The checks made before every warp.
pub fn check_warp(character_loaded: bool, dlc: bool, dlc_owned: bool) -> (r: Result<(), WarpError>)
    ensures
        r == warp_check(character_loaded, dlc, dlc_owned),
{
    if !character_loaded {
        return Err(WarpError::CharacterNotLoaded);
    }
    if dlc && !dlc_owned {
        return Err(WarpError::DlcNotOwned);
    }
    Ok(())
}

/// The code that warps to a site of grace: the world character manager at 2,
/// the grace's entity id at 20 and the game's warp function at 30.
pub open spec fn grace_warp_code(template: Seq<u8>, world_chr_man: u64, grace_id: i64, grace_warp_fn: u64) -> Result<
    Seq<u8>,
    SliceError,
> {
    then_write(
        then_write(
            then_write(Ok(template), 2, world_chr_man as nat, 8),
            20,
            i64_bits(grace_id as int),
            8,
        ),
        30,
        grace_warp_fn as nat,
        8,
    )
}

/// Builds the code that warps to the site of grace `grace_id`, from the
/// `warp_to_grace` template. The code that sets a completion flag after it
/// runs is not included: the caller appends it before the code is written
/// and run.
pub fn warp_to_grace(template: &Vec<u8>, world_chr_man: u64, grace_id: i64, grace_warp_fn: u64) -> (r:
    Result<Vec<u8>, SliceError>)
    ensures
        built(r, grace_warp_code(template@, world_chr_man, grace_id, grace_warp_fn)),
{
    let mut code = copy_template(template);
    write_to_slice::<u64>(&mut code, 2, world_chr_man)?;
    write_to_slice::<i64>(&mut code, 20, grace_id)?;
    write_to_slice::<u64>(&mut code, 30, grace_warp_fn)?;
    Ok(code)
}

/// A site of grace.
pub struct Grace {
    pub name: String,
    pub grace_entity_id: i64,
    pub dlc: bool,
}

impl Grace {
    /// Warps to this grace: refused when no character is loaded or when the
    /// grace is in an expansion that is not owned; otherwise the warp code.
    pub fn warp(
        &self,
        character_loaded: bool,
        dlc_owned: bool,
        template: &Vec<u8>,
        world_chr_man: u64,
        grace_warp_fn: u64,
    ) -> (r: Result<Vec<u8>, WarpError>)
        ensures
            match warp_check(character_loaded, self.dlc, dlc_owned) {
                Err(e) => r == Err::<Vec<u8>, WarpError>(e),
                Ok(_) => match grace_warp_code(template@, world_chr_man, self.grace_entity_id, grace_warp_fn) {
                    Ok(code) => r matches Ok(v) && v@ == code,
                    Err(e) => r == Err::<Vec<u8>, WarpError>(WarpError::Build(e)),
                },
            },
    {
        check_warp(character_loaded, self.dlc, dlc_owned)?;
        match warp_to_grace(template, world_chr_man, self.grace_entity_id, grace_warp_fn) {
            Ok(code) => Ok(code),
            Err(e) => Err(WarpError::Build(e)),
        }
    }
}

/// The event that moves the arena of the Grafted Scion.
pub const SCION_ARENA_EVENT: u32 = 10010801;

/// Whether warping to the boss `name` needs the arena event read first: only
/// the Grafted Scion, whose arena moves once the event is set.
pub fn needs_arena_event(name: &str) -> (r: bool)
    ensures
        r == (name@ == "Grafted Scion"@),
{
    str_equals(name, "Grafted Scion")
}

/// Whether a boss warp goes to the fixed position in front of the Grafted
/// Scion rather than to the boss's own position: only for that boss, while
/// its arena event is not set.
pub fn use_arena_fallback(name: &str, arena_event_set: bool) -> (r: bool)
    ensures
        r == (name@ == "Grafted Scion"@ && !arena_event_set),
{
    needs_arena_event(name) && !arena_event_set
}

/// The area byte of a block id.
pub open spec fn block_area(block_id: i32) -> i32 {
    (block_id >> 24u32) & 0xFF
}

/// The block byte of a block id.
pub open spec fn block_block(block_id: i32) -> i32 {
    (block_id >> 16u32) & 0xFF
}

/// The map byte of a block id.
pub open spec fn block_map(block_id: i32) -> i32 {
    (block_id >> 8u32) & 0xFF
}

/// The alternate byte of a block id.
pub open spec fn block_alt(block_id: i32) -> i32 {
    block_id & 0xFF
}

/// The four bytes of a block id, put back together, give the id.
pub proof fn lemma_block_id_parts(block_id: i32)
    ensures
        0 <= block_area(block_id) < 256,
        0 <= block_block(block_id) < 256,
        0 <= block_map(block_id) < 256,
        0 <= block_alt(block_id) < 256,
        (block_area(block_id) << 24u32) | (block_block(block_id) << 16u32) | (block_map(block_id)
            << 8u32) | block_alt(block_id) == block_id,
{
    assert(0 <= ((block_id >> 24u32) & 0xFF) < 256) by (bit_vector);
    assert(0 <= ((block_id >> 16u32) & 0xFF) < 256) by (bit_vector);
    assert(0 <= ((block_id >> 8u32) & 0xFF) < 256) by (bit_vector);
    assert(0 <= (block_id & 0xFF) < 256) by (bit_vector);
    assert((((block_id >> 24u32) & 0xFF) << 24u32) | (((block_id >> 16u32) & 0xFF) << 16u32) | (((
    block_id >> 8u32) & 0xFF) << 8u32) | (block_id & 0xFF) == block_id) by (bit_vector);
}

/// The code that warps to a map block: the area, block, map and alternate
/// bytes of `block_id` as 32-bit values at 1, 6, 12 and 18, and the game's
/// warp function at 24.
pub open spec fn block_warp_code(template: Seq<u8>, block_id: i32, block_warp_fn: u64) -> Result<
    Seq<u8>,
    SliceError,
> {
    then_write(
        then_write(
            then_write(
                then_write(
                    then_write(Ok(template), 1, block_area(block_id) as nat, 4),
                    6,
                    block_block(block_id) as nat,
                    4,
                ),
                12,
                block_map(block_id) as nat,
                4,
            ),
            18,
            block_alt(block_id) as nat,
            4,
        ),
        24,
        block_warp_fn as nat,
        8,
    )
}

/// Builds the code that warps to the map block `block_id`, from the
/// `warp_to_block_id` template. The code that sets a completion flag after
/// it runs is not included: the caller appends it before the code is
/// written and run.
pub fn block_warp(template: &Vec<u8>, block_id: i32, block_warp_fn: u64) -> (r: Result<Vec<u8>, SliceError>)
    ensures
        built(r, block_warp_code(template@, block_id, block_warp_fn)),
{
    proof {
        lemma_block_id_parts(block_id);
    }
    let area: i32 = (block_id >> 24u32) & 0xFF;
    let block: i32 = (block_id >> 16u32) & 0xFF;
    let map: i32 = (block_id >> 8u32) & 0xFF;
    let alt_no: i32 = block_id & 0xFF;
    let mut code = copy_template(template);
    write_to_slice::<i32>(&mut code, 1, area)?;
    write_to_slice::<i32>(&mut code, 6, block)?;
    write_to_slice::<i32>(&mut code, 12, map)?;
    write_to_slice::<i32>(&mut code, 18, alt_no)?;
    write_to_slice::<u64>(&mut code, 24, block_warp_fn)?;
    Ok(code)
}

/// Where the angle sits in the structure that the angle hook writes.
pub const ANGLE_OFFSET_IN_STRUCT: i32 = 0xAB0;

/// The coordinate hook's code: it points at the wanted coordinates and
/// jumps back after the coordinate write.
pub open spec fn coord_hook_code(
    template: Seq<u8>,
    coord_code_location: u64,
    coords_location: u64,
    warp_coord_write: u64,
) -> Result<Seq<u8>, SliceError> {
    then_write_rel(
        then_write_rel(Ok(template), 3, coords_location, coord_code_location + 7),
        15,
        (warp_coord_write + 7) as u64,
        coord_code_location + 19,
    )
}

/// The angle hook's code, made from the coordinate hook's: it points at the
/// wanted angle, writes it at the angle's offset and jumps back after the
/// angle write.
pub open spec fn angle_hook_code(
    coord_code: Seq<u8>,
    angle_code_location: u64,
    angle_location: u64,
    warp_angle_write: u64,
) -> Result<Seq<u8>, SliceError> {
    then_write_rel(
        then_write(
            then_write_rel(Ok(coord_code), 3, angle_location, angle_code_location + 7),
            10,
            i32_bits(ANGLE_OFFSET_IN_STRUCT as int),
            4,
        ),
        15,
        (warp_angle_write + 7) as u64,
        angle_code_location + 19,
    )
}

/// The change that hooks the coordinate and angle writes of a warp: the two
/// hook codes, then the jumps to them. A write made before a failure stands.
pub open spec fn warp_hooks_plan(
    template: Seq<u8>,
    coords_location: u64,
    angle_location: u64,
    coord_code_location: u64,
    angle_code_location: u64,
    warp_coord_write: u64,
    warp_angle_write: u64,
) -> PatchPlan {
    match coord_hook_code(template, coord_code_location, coords_location, warp_coord_write) {
        Err(e) => (Seq::empty(), Some(e)),
        Ok(a) => match angle_hook_code(a, angle_code_location, angle_location, warp_angle_write) {
            Err(e) => (seq![(coord_code_location, a)], Some(e)),
            Ok(b) => if !(i32::MIN <= coord_code_location - (warp_coord_write + 5) <= i32::MAX) {
                (seq![(coord_code_location, a), (angle_code_location, b)], Some(SliceError::RelativeOutOfRange))
            } else if !(i32::MIN <= angle_code_location - (warp_angle_write + 5) <= i32::MAX) {
                (
                    seq![
                        (coord_code_location, a),
                        (angle_code_location, b),
                        (warp_coord_write, hook_bytes(coord_code_location, warp_coord_write, 6)),
                    ],
                    Some(SliceError::RelativeOutOfRange),
                )
            } else {
                (
                    seq![
                        (coord_code_location, a),
                        (angle_code_location, b),
                        (warp_coord_write, hook_bytes(coord_code_location, warp_coord_write, 6)),
                        (warp_angle_write, hook_bytes(angle_code_location, warp_angle_write, 6)),
                    ],
                    None,
                )
            },
        },
    }
}

/// Builds the hooks that make a block warp land at the wanted coordinates
/// and angle, from the `warp_coord_angle_hook` template.
pub fn warp_coord_hooks(
    template: &Vec<u8>,
    coords_location: u64,
    angle_location: u64,
    coord_code_location: u64,
    angle_code_location: u64,
    warp_coord_write: u64,
    warp_angle_write: u64,
) -> (r: Patch)
    requires
        coord_code_location + 19 <= u64::MAX,
        angle_code_location + 19 <= u64::MAX,
        warp_coord_write + 7 <= u64::MAX,
        warp_angle_write + 7 <= u64::MAX,
    ensures
        crate::patch::patch_is(
            r,
            warp_hooks_plan(
                template@,
                coords_location,
                angle_location,
                coord_code_location,
                angle_code_location,
                warp_coord_write,
                warp_angle_write,
            ),
        ),
{
    let mut code = copy_template(template);
    if let Err(e) = write_rel_i32(&mut code, coord_code_location, 3, coords_location, 4) {
        return Patch::failed(e);
    }
    if let Err(e) = write_rel_i32(&mut code, coord_code_location, 15, warp_coord_write + 7, 4) {
        return Patch::failed(e);
    }
    let coord_code = copy_template(&code);
    let ghost a = coord_code@;
    let mut patch = Patch::single(coord_code_location, coord_code);
    if let Err(e) = write_rel_i32(&mut code, angle_code_location, 3, angle_location, 4) {
        return Patch::after(patch, e);
    }
    if let Err(e) = write_to_slice::<i32>(&mut code, 10, ANGLE_OFFSET_IN_STRUCT) {
        return Patch::after(patch, e);
    }
    if let Err(e) = write_rel_i32(&mut code, angle_code_location, 15, warp_angle_write + 7, 4) {
        return Patch::after(patch, e);
    }
    let ghost b = code@;
    patch.push(angle_code_location, code);
    assert(crate::patch::writes_view(patch.writes@) =~= seq![(coord_code_location, a), (angle_code_location, b)]);
    match get_hook_bytes(coord_code_location, warp_coord_write, 6) {
        Ok(h) => patch.push(warp_coord_write, h),
        Err(e) => return Patch::after(patch, e),
    }
    assert(crate::patch::writes_view(patch.writes@) =~= seq![
        (coord_code_location, a),
        (angle_code_location, b),
        (warp_coord_write, hook_bytes(coord_code_location, warp_coord_write, 6)),
    ]);
    match get_hook_bytes(angle_code_location, warp_angle_write, 6) {
        Ok(h) => patch.push(warp_angle_write, h),
        Err(e) => return Patch::after(patch, e),
    }
    assert(crate::patch::writes_view(patch.writes@) =~= seq![
        (coord_code_location, a),
        (angle_code_location, b),
        (warp_coord_write, hook_bytes(coord_code_location, warp_coord_write, 6)),
        (warp_angle_write, hook_bytes(angle_code_location, warp_angle_write, 6)),
    ]);
    patch
}

/// The coordinate write as the game has it.
pub open spec fn unpatched_coord_write() -> Seq<u8> {
    seq![0x0Fu8, 0x11u8, 0x80u8, 0xA0u8, 0x0Au8, 0x00u8, 0x00u8]
}

/// The angle write as the game has it.
pub open spec fn unpatched_angle_write() -> Seq<u8> {
    seq![0x0Fu8, 0x11u8, 0x80u8, 0xB0u8, 0x0Au8, 0x00u8, 0x00u8]
}

/// Puts the coordinate and angle writes back once the warp is over.
pub fn unhook_warp(warp_coord_write: u64, warp_angle_write: u64) -> (r: Patch)
    ensures
        crate::patch::patch_is(
            r,
            (seq![(warp_coord_write, unpatched_coord_write()), (warp_angle_write, unpatched_angle_write())], None),
        ),
{
    let coord: Vec<u8> = vec![0x0F, 0x11, 0x80, 0xA0, 0x0A, 0x00, 0x00];
    let angle: Vec<u8> = vec![0x0F, 0x11, 0x80, 0xB0, 0x0A, 0x00, 0x00];
    assert(coord@ =~= unpatched_coord_write());
    assert(angle@ =~= unpatched_angle_write());
    Patch::pair(warp_coord_write, coord, warp_angle_write, angle)
}

} // verus!
