use vstd::prelude::*;
use vstd::arithmetic::div_mod::{lemma_breakdown, lemma_small_mod};

verus! {

/// Why a read from or a write into a byte buffer failed.
#[derive(Debug, Clone, Copy, PartialEq, Eq, Structural)]
pub enum SliceError {
    /// `offset + size` does not fit in an address.
    OffsetOverflow,
    /// The bytes to read run past the end of the buffer.
    ReadOutOfBounds,
    /// The bytes to write run past the end of the buffer.
    WriteOutOfBounds,
    /// The value does not fit in the integer type that is written.
    ConversionFailed,
    /// The distance between two addresses does not fit in an `i32`.
    RelativeOutOfRange,
}

/// The little-endian encoding of `v` in `n` bytes (the low `n` bytes of `v`).
pub open spec fn le_bytes(v: nat, n: nat) -> Seq<u8>
    decreases n,
{
    if n == 0 {
        Seq::empty()
    } else {
        seq![(v % 256) as u8] + le_bytes(v / 256, (n - 1) as nat)
    }
}

/// The unsigned value of a little-endian byte sequence.
pub open spec fn le_value(bytes: Seq<u8>) -> nat
    decreases bytes.len(),
{
    if bytes.len() == 0 {
        0
    } else {
        (bytes[0] + 256 * le_value(bytes.drop_first())) as nat
    }
}

/// `256` to the power `n`.
pub open spec fn pow256(n: nat) -> nat
    decreases n,
{
    if n == 0 {
        1
    } else {
        256 * pow256((n - 1) as nat)
    }
}

/// The two's complement bit pattern of a 32-bit signed value.
pub open spec fn i32_bits(v: int) -> nat {
    if v >= 0 {
        v as nat
    } else {
        (v + 0x1_0000_0000) as nat
    }
}

/// The signed 32-bit value of a bit pattern.
pub open spec fn i32_from_bits(b: nat) -> int {
    if b < 0x8000_0000 {
        b as int
    } else {
        b - 0x1_0000_0000
    }
}

/// The two's complement bit pattern of a 64-bit signed value.
pub open spec fn i64_bits(v: int) -> nat {
    if v >= 0 {
        v as nat
    } else {
        (v + 0x1_0000_0000_0000_0000) as nat
    }
}

/// `s` with the bytes from `offset` on replaced by `bytes`.
pub open spec fn splice(s: Seq<u8>, offset: int, bytes: Seq<u8>) -> Seq<u8> {
    s.take(offset) + bytes + s.skip(offset + bytes.len())
}

pub proof fn lemma_le_bytes_len(v: nat, n: nat)
    ensures
        le_bytes(v, n).len() == n,
    decreases n,
{
    if n > 0 {
        lemma_le_bytes_len(v / 256, (n - 1) as nat);
    }
}

pub proof fn lemma_pow256_pos(n: nat)
    ensures
        pow256(n) > 0,
    decreases n,
{
    if n > 0 {
        lemma_pow256_pos((n - 1) as nat);
    }
}

pub proof fn lemma_pow256_values()
    ensures
        pow256(1) == 0x100,
        pow256(2) == 0x1_0000,
        pow256(4) == 0x1_0000_0000,
        pow256(7) == 0x100_0000_0000_0000,
        pow256(8) == 0x1_0000_0000_0000_0000,
{
    reveal_with_fuel(pow256, 9);
}

pub proof fn lemma_pow256_mono(a: nat, b: nat)
    requires
        a <= b,
    ensures
        pow256(a) <= pow256(b),
    decreases b,
{
    if a < b {
        lemma_pow256_mono(a, (b - 1) as nat);
        lemma_pow256_pos((b - 1) as nat);
    }
}

/// Decoding an encoding gives back the value, reduced to `n` bytes.
pub proof fn lemma_le_roundtrip(v: nat, n: nat)
    ensures
        le_value(le_bytes(v, n)) == v % pow256(n),
    decreases n,
{
    if n > 0 {
        let s = le_bytes(v, n);
        lemma_le_bytes_len(v, n);
        assert(s.drop_first() =~= le_bytes(v / 256, (n - 1) as nat));
        lemma_le_roundtrip(v / 256, (n - 1) as nat);
        lemma_pow256_pos((n - 1) as nat);
        lemma_breakdown(v as int, 256, pow256((n - 1) as nat) as int);
    }
}

/// The value of `n` bytes is below `256^n`.
pub proof fn lemma_le_value_bound(s: Seq<u8>)
    ensures
        le_value(s) < pow256(s.len()),
    decreases s.len(),
{
    if s.len() > 0 {
        lemma_le_value_bound(s.drop_first());
    }
}

/// Encoding the value of a byte sequence gives back the sequence.
pub proof fn lemma_le_bytes_of_value(s: Seq<u8>)
    ensures
        le_bytes(le_value(s), s.len()) == s,
    decreases s.len(),
{
    if s.len() > 0 {
        let r = le_value(s.drop_first());
        let v = le_value(s);
        assert(v == s[0] + 256 * r);
        assert(v % 256 == s[0] as nat) by (nonlinear_arith)
            requires
                v == s[0] + 256 * r,
                s[0] < 256,
        ;
        assert(v / 256 == r) by (nonlinear_arith)
            requires
                v == s[0] + 256 * r,
                s[0] < 256,
        ;
        lemma_le_bytes_of_value(s.drop_first());
        assert(le_bytes(v, s.len()) =~= s);
    }
}

/// The encoding of `v` in `n` bytes, for `n <= 8`.
pub fn encode_le(v: u64, n: usize) -> (r: Vec<u8>)
    requires
        n <= 8,
    ensures
        r@ == le_bytes(v as nat, n as nat),
{
    let mut out: Vec<u8> = Vec::new();
    let mut x: u64 = v;
    let mut i: usize = 0;
    while i < n
        invariant
            i <= n,
            out@ + le_bytes(x as nat, (n - i) as nat) == le_bytes(v as nat, n as nat),
        decreases n - i,
    {
        let b: u8 = (x % 256) as u8;
        let ghost before = out@;
        let ghost rest = le_bytes((x / 256) as nat, (n - i - 1) as nat);
        assert(le_bytes(x as nat, (n - i) as nat) == seq![b] + rest);
        out.push(b);
        x = x / 256;
        i = i + 1;
        assert(out@ + rest =~= before + (seq![b] + rest));
    }
    out
}

/// The value of at most 8 little-endian bytes.
pub fn decode_le(bytes: &[u8]) -> (r: u64)
    requires
        bytes@.len() <= 8,
    ensures
        r == le_value(bytes@),
{
    let n = bytes.len();
    let mut acc: u64 = 0;
    let mut i: usize = n;
    proof {
        assert(bytes@.skip(n as int) =~= Seq::<u8>::empty());
    }
    while i > 0
        invariant
            i <= n,
            n == bytes@.len(),
            n <= 8,
            acc == le_value(bytes@.skip(i as int)),
        decreases i,
    {
        i = i - 1;
        let ghost tail = bytes@.skip(i as int);
        proof {
            assert(tail.drop_first() =~= bytes@.skip(i + 1));
            lemma_le_value_bound(bytes@.skip(i + 1));
            lemma_pow256_mono((n - i - 1) as nat, 7);
            lemma_pow256_values();
        }
        acc = bytes[i] as u64 + 256 * acc;
    }
    proof {
        assert(bytes@.skip(0) =~= bytes@);
    }
    acc
}

/// Integer types that a buffer holds in little-endian order.
pub trait LeBytes: Sized {
    /// The number of bytes of the type.
    spec fn byte_len() -> nat;

    /// The unsigned bit pattern of a value.
    spec fn bits(&self) -> nat;

    fn size() -> (n: usize)
        ensures
            n == Self::byte_len(),
            1 <= n <= 8,
    ;

    /// The bit pattern fits in the type's bytes.
    proof fn lemma_bits_bound(&self)
        ensures
            self.bits() < pow256(Self::byte_len()),
    ;

    /// Values with the same bit pattern are equal.
    proof fn lemma_bits_injective(a: Self, b: Self)
        requires
            a.bits() == b.bits(),
        ensures
            a == b,
    ;

    fn encode(&self) -> (r: Vec<u8>)
        ensures
            r@ == le_bytes(self.bits(), Self::byte_len()),
    ;

    fn decode(bytes: &[u8]) -> (r: Self)
        requires
            bytes@.len() == Self::byte_len(),
        ensures
            r.bits() == le_value(bytes@),
    ;
}

impl LeBytes for u8 {
    open spec fn byte_len() -> nat {
        1
    }

    open spec fn bits(&self) -> nat {
        *self as nat
    }

    fn size() -> (n: usize) {
        1
    }

    proof fn lemma_bits_bound(&self) {
        lemma_pow256_values();
    }

    proof fn lemma_bits_injective(a: Self, b: Self) {
    }


    fn encode(&self) -> (r: Vec<u8>) {
        encode_le(*self as u64, 1)
    }

    fn decode(bytes: &[u8]) -> (r: Self) {
        proof {
            lemma_le_value_bound(bytes@);
            lemma_pow256_values();
        }
        decode_le(bytes) as u8
    }
}

impl LeBytes for u32 {
    open spec fn byte_len() -> nat {
        4
    }

    open spec fn bits(&self) -> nat {
        *self as nat
    }

    fn size() -> (n: usize) {
        4
    }

    proof fn lemma_bits_bound(&self) {
        lemma_pow256_values();
    }

    proof fn lemma_bits_injective(a: Self, b: Self) {
    }


    fn encode(&self) -> (r: Vec<u8>) {
        encode_le(*self as u64, 4)
    }

    fn decode(bytes: &[u8]) -> (r: Self) {
        proof {
            lemma_le_value_bound(bytes@);
            lemma_pow256_values();
        }
        decode_le(bytes) as u32
    }
}

impl LeBytes for i32 {
    open spec fn byte_len() -> nat {
        4
    }

    open spec fn bits(&self) -> nat {
        i32_bits(*self as int)
    }

    fn size() -> (n: usize) {
        4
    }

    proof fn lemma_bits_bound(&self) {
        lemma_pow256_values();
    }

    proof fn lemma_bits_injective(a: Self, b: Self) {
    }


    fn encode(&self) -> (r: Vec<u8>) {
        let v = *self;
        let u = v as u32;
        assert(v >= 0 ==> u == v) by (bit_vector)
            requires
                u == v as u32,
        ;
        assert(v < 0 ==> u == (v + 0x1_0000_0000)) by (bit_vector)
            requires
                u == v as u32,
        ;
        encode_le(u as u64, 4)
    }

    fn decode(bytes: &[u8]) -> (r: Self) {
        proof {
            lemma_le_value_bound(bytes@);
            lemma_pow256_values();
        }
        let u = decode_le(bytes) as u32;
        let v = u as i32;
        assert(u < 0x8000_0000 ==> v == u) by (bit_vector)
            requires
                v == u as i32,
        ;
        assert(u >= 0x8000_0000 ==> v == u - 0x1_0000_0000) by (bit_vector)
            requires
                v == u as i32,
        ;
        v
    }
}

impl LeBytes for u64 {
    open spec fn byte_len() -> nat {
        8
    }

    open spec fn bits(&self) -> nat {
        *self as nat
    }

    fn size() -> (n: usize) {
        8
    }

    proof fn lemma_bits_bound(&self) {
        lemma_pow256_values();
    }

    proof fn lemma_bits_injective(a: Self, b: Self) {
    }


    fn encode(&self) -> (r: Vec<u8>) {
        encode_le(*self, 8)
    }

    fn decode(bytes: &[u8]) -> (r: Self) {
        decode_le(bytes)
    }
}

impl LeBytes for i64 {
    open spec fn byte_len() -> nat {
        8
    }

    open spec fn bits(&self) -> nat {
        i64_bits(*self as int)
    }

    fn size() -> (n: usize) {
        8
    }

    proof fn lemma_bits_bound(&self) {
        lemma_pow256_values();
    }

    proof fn lemma_bits_injective(a: Self, b: Self) {
    }


    fn encode(&self) -> (r: Vec<u8>) {
        let v = *self;
        let u = v as u64;
        assert(v >= 0 ==> u == v) by (bit_vector)
            requires
                u == v as u64,
        ;
        assert(v < 0 ==> u == (v + 0x1_0000_0000_0000_0000)) by (bit_vector)
            requires
                u == v as u64,
        ;
        encode_le(u, 8)
    }

    fn decode(bytes: &[u8]) -> (r: Self) {
        proof {
            lemma_le_value_bound(bytes@);
            lemma_pow256_values();
        }
        let u = decode_le(bytes);
        let v = u as i64;
        assert(u < 0x8000_0000_0000_0000 ==> v == u) by (bit_vector)
            requires
                v == u as i64,
        ;
        assert(u >= 0x8000_0000_0000_0000 ==> v == u - 0x1_0000_0000_0000_0000) by (bit_vector)
            requires
                v == u as i64,
        ;
        v
    }
}


/// The value of type `T` stored at `offset` in `array`.
///
/// Fails with `OffsetOverflow` when the end of the value does not fit in an
/// address, and with `ReadOutOfBounds` when it lies past the end of `array`.
pub fn read_from_slice<T: LeBytes>(array: &[u8], offset: u64) -> (r: Result<T, SliceError>)
    ensures
        match r {
            Ok(v) => {
                &&& offset + T::byte_len() <= array@.len()
                &&& v.bits() == le_value(array@.subrange(offset as int, offset + T::byte_len()))
            },
            Err(e) => {
                &&& offset + T::byte_len() > u64::MAX ==> e == SliceError::OffsetOverflow
                &&& offset + T::byte_len() <= u64::MAX ==> e == SliceError::ReadOutOfBounds
                &&& offset + T::byte_len() > array@.len()
            },
        },
{
    let size = T::size();
    let len = array.len();
    if offset > u64::MAX - size as u64 {
        return Err(SliceError::OffsetOverflow);
    }
    let end: u64 = offset + size as u64;
    if end > array.len() as u64 {
        return Err(SliceError::ReadOutOfBounds);
    }
    let start = offset as usize;
    let mut bytes: Vec<u8> = Vec::new();
    let mut i: usize = 0;
    while i < size
        invariant
            i <= size,
            size == T::byte_len(),
            start + size <= array@.len(),
            array@.len() <= usize::MAX,
            start == offset,
            bytes@ == array@.subrange(start as int, start + i),
        decreases size - i,
    {
        bytes.push(array[start + i]);
        i = i + 1;
        assert(bytes@ =~= array@.subrange(start as int, start + i));
    }
    Ok(T::decode(bytes.as_slice()))
}

/// Writes `bytes` into `array` from `start` on.
fn write_bytes_at(array: &mut Vec<u8>, start: usize, bytes: &Vec<u8>)
    requires
        start + bytes@.len() <= old(array)@.len(),
    ensures
        final(array)@ == splice(old(array)@, start as int, bytes@),
{
    let ghost original = array@;
    let _total = array.len();
    let n = bytes.len();
    let mut i: usize = 0;
    while i < n
        invariant
            i <= n,
            n == bytes@.len(),
            start + n <= original.len(),
            original.len() <= usize::MAX,
            array@.len() == original.len(),
            array@ == splice(original, start as int, bytes@.take(i as int)),
        decreases n - i,
    {
        array.set(start + i, bytes[i]);
        i = i + 1;
        assert(array@ =~= splice(original, start as int, bytes@.take(i as int)));
    }
    assert(bytes@.take(n as int) =~= bytes@);
}

/// Stores `value` at `offset` in `array`, in little-endian order.
///
/// Fails with `WriteOutOfBounds`, leaving `array` as it was, when the value
/// would run past the end of `array`.
pub fn write_to_slice<T: LeBytes>(array: &mut Vec<u8>, offset: u64, value: T) -> (r: Result<
    (),
    SliceError,
>)
    requires
        offset + T::byte_len() <= u64::MAX,
    ensures
        offset + T::byte_len() <= old(array)@.len() ==> {
            &&& r is Ok
            &&& final(array)@ == splice(
                old(array)@,
                offset as int,
                le_bytes(value.bits(), T::byte_len()),
            )
        },
        offset + T::byte_len() > old(array)@.len() ==> {
            &&& r == Err::<(), SliceError>(SliceError::WriteOutOfBounds)
            &&& final(array)@ == old(array)@
        },
{
    let size = T::size();
    if offset + size as u64 > array.len() as u64 {
        return Err(SliceError::WriteOutOfBounds);
    }
    let bytes = value.encode();
    proof {
        lemma_le_bytes_len(value.bits(), T::byte_len());
    }
    write_bytes_at(array, offset as usize, &bytes);
    Ok(())
}

/// The signed distance from `source` to `target`, when it fits in an `i32`.
pub fn rel_i32(target: u64, source: u64) -> (r: Result<i32, SliceError>)
    ensures
        match r {
            Ok(v) => v == target - source,
            Err(e) => {
                &&& e == SliceError::RelativeOutOfRange
                &&& !(i32::MIN <= target - source <= i32::MAX)
            },
        },
{
    let d: i128 = target as i128 - source as i128;
    if d < i32::MIN as i128 || d > i32::MAX as i128 {
        Err(SliceError::RelativeOutOfRange)
    } else {
        Ok(d as i32)
    }
}

/// Writes at `offset` in `code` the 32-bit displacement of `target` as seen by
/// an instruction at `location + offset` whose next instruction starts
/// `bytes_to_next_instr` bytes after the displacement's position.
pub fn write_rel_i32(
    code: &mut Vec<u8>,
    location: u64,
    offset: u64,
    target: u64,
    bytes_to_next_instr: u64,
) -> (r: Result<(), SliceError>)
    requires
        location + offset + bytes_to_next_instr <= u64::MAX,
        offset + 4 <= u64::MAX,
    ensures
        ({
            let d = target - (location + offset + bytes_to_next_instr);
            &&& !(i32::MIN <= d <= i32::MAX) ==> {
                &&& r == Err::<(), SliceError>(SliceError::RelativeOutOfRange)
                &&& final(code)@ == old(code)@
            }
            &&& (i32::MIN <= d <= i32::MAX && offset + 4 > old(code)@.len()) ==> {
                &&& r == Err::<(), SliceError>(SliceError::WriteOutOfBounds)
                &&& final(code)@ == old(code)@
            }
            &&& (i32::MIN <= d <= i32::MAX && offset + 4 <= old(code)@.len()) ==> {
                &&& r is Ok
                &&& final(code)@ == splice(old(code)@, offset as int, le_bytes(i32_bits(d), 4))
            }
        }),
{
    let rel = rel_i32(target, location + offset + bytes_to_next_instr)?;
    write_to_slice::<i32>(code, offset, rel)
}

/// The bytes of a `jmp rel32` at `hook_location` to `code_location`, padded
/// with `nop`s to cover `original_instruction_size` bytes.
pub open spec fn hook_bytes(code_location: u64, hook_location: u64, original_instruction_size: usize) -> Seq<u8> {
    let nops = if original_instruction_size > 5 { original_instruction_size - 5 } else { 0 };
    seq![0xE9u8] + le_bytes(i32_bits(code_location - (hook_location + 5)), 4) + Seq::new(
        nops as nat,
        |i: int| 0x90u8,
    )
}

/// The bytes that overwrite the instructions at `hook_location` with a jump to
/// `code_location`; fails when the jump is out of `rel32` range.
pub fn get_hook_bytes(code_location: u64, hook_location: u64, original_instruction_size: usize) -> (r:
    Result<Vec<u8>, SliceError>)
    requires
        hook_location + 5 <= u64::MAX,
    ensures
        ({
            let d = code_location - (hook_location + 5);
            &&& i32::MIN <= d <= i32::MAX ==> (r matches Ok(b) && b@ == hook_bytes(
                code_location,
                hook_location,
                original_instruction_size,
            ))
            &&& !(i32::MIN <= d <= i32::MAX) ==> r == Err::<Vec<u8>, SliceError>(
                SliceError::RelativeOutOfRange,
            )
        }),
{
    let mut bytes: Vec<u8> = vec![0xE9, 0x00, 0x00, 0x00, 0x00];
    let nop_num = original_instruction_size.saturating_sub(5);
    let mut i: usize = 0;
    while i < nop_num
        invariant
            i <= nop_num,
            bytes@.len() == 5 + i,
            bytes@[0] == 0xE9u8,
            forall|j: int| 5 <= j < 5 + i ==> bytes@[j] == 0x90u8,
        decreases nop_num - i,
    {
        bytes.push(0x90);
        i = i + 1;
    }
    let ghost before = bytes@;
    write_rel_i32(&mut bytes, hook_location, 1, code_location, 4)?;
    proof {
        let d = code_location - (hook_location + 5);
        lemma_le_bytes_len(i32_bits(d), 4);
        assert(bytes@ =~= hook_bytes(code_location, hook_location, original_instruction_size));
    }
    Ok(bytes)
}

/// A hook jumps to the code it was made for: decoding the displacement of the
/// `jmp` and adding it to the address after the jump gives `code_location`.
pub proof fn lemma_hook_jumps_to_code(code_location: u64, hook_location: u64, original_instruction_size: usize)
    requires
        hook_location + 5 <= u64::MAX,
        i32::MIN <= code_location - (hook_location + 5) <= i32::MAX,
    ensures
        hook_bytes(code_location, hook_location, original_instruction_size)[0] == 0xE9u8,
        hook_location + 5 + i32_from_bits(
            le_value(hook_bytes(code_location, hook_location, original_instruction_size).subrange(1, 5)),
        ) == code_location,
        hook_bytes(code_location, hook_location, original_instruction_size).len() == if original_instruction_size > 5 {
            original_instruction_size as int
        } else {
            5
        },
{
    let d = code_location - (hook_location + 5);
    let b = hook_bytes(code_location, hook_location, original_instruction_size);
    lemma_le_bytes_len(i32_bits(d), 4);
    assert(b.subrange(1, 5) =~= le_bytes(i32_bits(d), 4));
    lemma_le_roundtrip(i32_bits(d), 4);
    lemma_pow256_values();
}

/// What a write stores at an offset, a read at that offset gives back.
pub proof fn lemma_read_after_write(s: Seq<u8>, offset: int, bits: nat, n: nat)
    requires
        0 <= offset,
        offset + n <= s.len(),
        bits < pow256(n),
    ensures
        splice(s, offset, le_bytes(bits, n)).len() == s.len(),
        le_value(splice(s, offset, le_bytes(bits, n)).subrange(offset, offset + n)) == bits,
        forall|i: int|
            0 <= i < s.len() && !(offset <= i < offset + n) ==> #[trigger] splice(
                s,
                offset,
                le_bytes(bits, n),
            )[i] == s[i],
{
    lemma_le_bytes_len(bits, n);
    let t = splice(s, offset, le_bytes(bits, n));
    assert(t.subrange(offset, offset + n) =~= le_bytes(bits, n));
    lemma_le_roundtrip(bits, n);
    lemma_small_mod(bits, pow256(n));
}


/// What writing the `n`-byte value with bit pattern `bits` at `offset` makes
/// of `s`: the spliced bytes, or `WriteOutOfBounds`.
pub open spec fn write_spec(s: Seq<u8>, offset: int, bits: nat, n: nat) -> Result<Seq<u8>, SliceError> {
    if offset + n <= s.len() {
        Ok(splice(s, offset, le_bytes(bits, n)))
    } else {
        Err(SliceError::WriteOutOfBounds)
    }
}

/// A write after an earlier step that may have failed.
pub open spec fn then_write(r: Result<Seq<u8>, SliceError>, offset: int, bits: nat, n: nat) -> Result<Seq<u8>, SliceError> {
    match r {
        Ok(s) => write_spec(s, offset, bits, n),
        Err(e) => Err(e),
    }
}

/// A write of a 64-bit address as a 32-bit value, which fails with
/// `ConversionFailed` when the address does not fit.
pub open spec fn then_write_u32_of(r: Result<Seq<u8>, SliceError>, offset: int, v: u64) -> Result<Seq<u8>, SliceError> {
    match r {
        Ok(s) => if v <= u32::MAX {
            write_spec(s, offset, v as nat, 4)
        } else {
            Err(SliceError::ConversionFailed)
        },
        Err(e) => Err(e),
    }
}

/// A write of the displacement from `source` to `target` as an `i32`, which
/// fails with `RelativeOutOfRange` when it does not fit.
pub open spec fn then_write_rel(r: Result<Seq<u8>, SliceError>, offset: int, target: u64, source: int) -> Result<Seq<u8>, SliceError> {
    match r {
        Ok(s) => if i32::MIN <= target - source <= i32::MAX {
            write_spec(s, offset, i32_bits(target - source), 4)
        } else {
            Err(SliceError::RelativeOutOfRange)
        },
        Err(e) => Err(e),
    }
}

/// `v` as a `u32`, when it fits.
pub fn u32_from_u64(v: u64) -> (r: Result<u32, SliceError>)
    ensures
        v <= u32::MAX ==> r == Ok::<u32, SliceError>(v as u32),
        v > u32::MAX ==> r == Err::<u32, SliceError>(SliceError::ConversionFailed),
{
    if v <= u32::MAX as u64 {
        Ok(v as u32)
    } else {
        Err(SliceError::ConversionFailed)
    }
}

/// Whether a built piece of code is what a specification of its steps says:
/// the same bytes, or the same error.
pub open spec fn built(r: Result<Vec<u8>, SliceError>, s: Result<Seq<u8>, SliceError>) -> bool {
    match r {
        Ok(v) => s == Ok::<Seq<u8>, SliceError>(v@),
        Err(e) => s == Err::<Seq<u8>, SliceError>(e),
    }
}

/// A copy of a code template, to be patched.
pub fn copy_template(template: &Vec<u8>) -> (r: Vec<u8>)
    ensures
        r@ == template@,
{
    let r = template.clone();
    assert(r@ =~= template@);
    r
}

/// A typed read at an offset gives back the value that a typed write
/// stored there, and the bytes around it keep their values.
pub proof fn lemma_typed_read_after_write<T: LeBytes>(before: Seq<u8>, after: Seq<u8>, offset: int, v: T, w: T)
    requires
        0 <= offset,
        offset + T::byte_len() <= before.len(),
        after == splice(before, offset, le_bytes(v.bits(), T::byte_len())),
        w.bits() == le_value(after.subrange(offset, offset + T::byte_len())),
    ensures
        w == v,
        after.len() == before.len(),
        forall|i: int|
            0 <= i < before.len() && !(offset <= i < offset + T::byte_len()) ==> #[trigger] after[i]
                == before[i],
{
    v.lemma_bits_bound();
    lemma_read_after_write(before, offset, v.bits(), T::byte_len());
    T::lemma_bits_injective(w, v);
}

} // verus!
