use vstd::prelude::*;

verus! {

/// The number of bytes read from the process at a time while scanning.
pub const CHUNK_SIZE: usize = 0x5000;

/// How the address of a match is turned into the address that a scan reports.
#[derive(Debug, Clone, Copy, PartialEq, Eq, Structural)]
pub enum ScanMode {
    /// The address of the match itself.
    Absolute,
    /// The 32-bit value stored at the match.
    Direct32,
    /// The match holds a 32-bit displacement; the value is the address of the
    /// next instruction, `bytes_to_next_instr` bytes on, plus that displacement.
    Relative(i32),
}

/// A pattern to look for in the attached process.
pub struct AobScan {
    pub name: &'static str,
    pub pattern: &'static str,
    pub scan_origin: u64,
    pub offset: isize,
    pub scan_mode: ScanMode,
}

/// The memory of the attached process at `address` could not be read.
#[derive(Debug, Clone, Copy, PartialEq, Eq, Structural)]
pub struct ProcessError {
    pub address: u64,
}

/// Why a scan gave no address.
#[derive(Debug)]
pub enum ScanError {
    ParsePattern { failed_byte: &'static str },
    NotFound { scan_name: &'static str },
    Overflow,
    OverflowRelative,
    ProcessError { err: ProcessError },
}

// ---------------------------------------------------------------------------
// Pattern text
// ---------------------------------------------------------------------------

/// The characters with the Unicode `White_Space` property.
pub open spec fn is_whitespace(c: char) -> bool {
    let u = c as u32;
    ||| 0x09 <= u <= 0x0D
    ||| u == 0x20
    ||| u == 0x85
    ||| u == 0xA0
    ||| u == 0x1680
    ||| 0x2000 <= u <= 0x200A
    ||| u == 0x2028
    ||| u == 0x2029
    ||| u == 0x202F
    ||| u == 0x205F
    ||| u == 0x3000
}

/// The start and end (exclusive) of each maximal run of non-whitespace
/// characters in `s`, in order.
pub open spec fn token_ranges(s: Seq<char>) -> Seq<(int, int)>
    decreases s.len(),
{
    if s.len() == 0 {
        Seq::empty()
    } else {
        let i = s.len() - 1;
        let prev = token_ranges(s.drop_last());
        if is_whitespace(s[i]) {
            prev
        } else if i == 0 || is_whitespace(s[i - 1]) {
            prev.push((i, i + 1))
        } else {
            prev.update(prev.len() - 1, (prev.last().0, i + 1))
        }
    }
}

/// The `k`-th whitespace-separated token of `s`.
pub open spec fn token(s: Seq<char>, k: int) -> Seq<char> {
    s.subrange(token_ranges(s)[k].0, token_ranges(s)[k].1)
}

/// The value of a hexadecimal digit.
pub open spec fn hex_digit(c: char) -> Option<nat> {
    let u = c as u32;
    if 0x30 <= u <= 0x39 {
        Some((u - 0x30) as nat)
    } else if 0x61 <= u <= 0x66 {
        Some((u - 0x61 + 10) as nat)
    } else if 0x41 <= u <= 0x46 {
        Some((u - 0x41 + 10) as nat)
    } else {
        None
    }
}

/// The hexadecimal digits are `0`-`9` worth 0 to 9, and the letters `a`-`f`
/// and `A`-`F` worth 10 to 15, the two cases of a letter alike; a digit is
/// worth less than 16 and is one of these characters.
pub proof fn lemma_hex_digit_values(c: char, k: nat)
    ensures
        k < 10 && c as u32 == 0x30 + k ==> hex_digit(c) == Some(k),
        k < 6 && c as u32 == 0x61 + k ==> hex_digit(c) == Some(10 + k),
        k < 6 && c as u32 == 0x41 + k ==> hex_digit(c) == Some(10 + k),
        hex_digit(c) matches Some(v) ==> v < 16 && (c as u32 == 0x30 + v || c as u32 == 0x61 + v - 10
            || c as u32 == 0x41 + v - 10),
{
}

/// Two hexadecimal digits read as the byte they write: sixteen times the
/// first digit's value plus the second's.
pub proof fn lemma_two_digit_byte(hi: char, lo: char)
    requires
        hex_digit(hi) is Some,
        hex_digit(lo) is Some,
    ensures
        parse_hex_u8(seq![hi, lo]) == Some((16 * hex_digit(hi)->0 + hex_digit(lo)->0) as u8),
        pattern_element(seq![hi, lo]) == Some(Some((16 * hex_digit(hi)->0 + hex_digit(lo)->0) as u8)),
{
    let t = seq![hi, lo];
    lemma_hex_digit_values(hi, 0);
    lemma_hex_digit_values(lo, 0);
    assert(t.drop_last() =~= seq![hi]);
    assert(seq![hi].drop_last() =~= Seq::<char>::empty());
    assert(hex_value(Seq::<char>::empty()) == 0);
    assert(seq![hi].last() == hi);
    assert(hex_value(seq![hi]) == hex_digit(hi)->0);
    assert(t.last() == lo);
    assert(hex_value(t) == 16 * hex_digit(hi)->0 + hex_digit(lo)->0);
    assert(all_hex(t)) by {
        assert forall|i: int| 0 <= i < t.len() implies (#[trigger] hex_digit(t[i])) is Some by {
            if i == 0 {
                assert(t[i] == hi);
            } else {
                assert(t[i] == lo);
            }
        }
    }
    assert(hi != '+');
    assert(!(t =~= seq!['?']));
}

pub open spec fn all_hex(t: Seq<char>) -> bool {
    forall|i: int| 0 <= i < t.len() ==> (#[trigger] hex_digit(t[i])) is Some
}

/// The value of a sequence of hexadecimal digits.
pub open spec fn hex_value(t: Seq<char>) -> nat
    decreases t.len(),
{
    if t.len() == 0 {
        0
    } else {
        hex_value(t.drop_last()) * 16 + hex_digit(t.last()).unwrap()
    }
}

/// What `u8::from_str_radix(t, 16)` gives: an optional `+` sign followed by at
/// least one hexadecimal digit, with a value below 256.
pub open spec fn parse_hex_u8(t: Seq<char>) -> Option<u8> {
    let digits = if t.len() > 0 && t[0] == '+' {
        t.drop_first()
    } else {
        t
    };
    if t.len() == 0 || (t.len() == 1 && (t[0] == '+' || t[0] == '-')) {
        None
    } else if all_hex(digits) && hex_value(digits) <= 255 {
        Some(hex_value(digits) as u8)
    } else {
        None
    }
}

/// One element of a pattern: `?` matches any byte; otherwise a hexadecimal
/// byte. `None` when the token is neither.
pub open spec fn pattern_element(t: Seq<char>) -> Option<Option<u8>> {
    if t =~= seq!['?'] {
        Some(None)
    } else {
        match parse_hex_u8(t) {
            Some(b) => Some(Some(b)),
            None => None,
        }
    }
}

proof fn lemma_hex_value_prefix(t: Seq<char>, j: int)
    requires
        all_hex(t),
        0 <= j <= t.len(),
    ensures
        hex_value(t.take(j)) <= hex_value(t),
    decreases t.len() - j,
{
    if j < t.len() {
        let u = t.drop_last();
        assert(u.take(j) =~= t.take(j));
        assert(all_hex(u)) by {
            assert forall|i: int| 0 <= i < u.len() implies (#[trigger] hex_digit(u[i])) is Some by {
                assert(u[i] == t[i]);
            }
        }
        lemma_hex_value_prefix(u, j);
        assert(hex_digit(t[t.len() - 1]) is Some);
        assert(t.last() == t[t.len() - 1]);
        assert(hex_value(t) == hex_value(u) * 16 + hex_digit(t.last()).unwrap());
    } else {
        assert(t.take(j) =~= t);
    }
}

fn is_whitespace_char(c: char) -> (r: bool)
    ensures
        r == is_whitespace(c),
{
    let u = c as u32;
    (0x09 <= u && u <= 0x0D) || u == 0x20 || u == 0x85 || u == 0xA0 || u == 0x1680 || (0x2000 <= u
        && u <= 0x200A) || u == 0x2028 || u == 0x2029 || u == 0x202F || u == 0x205F || u == 0x3000
}

fn hex_digit_value(c: char) -> (r: Option<u32>)
    ensures
        match r {
            Some(v) => hex_digit(c) == Some(v as nat) && v < 16,
            None => hex_digit(c) is None,
        },
{
    let u = c as u32;
    if 0x30 <= u && u <= 0x39 {
        Some(u - 0x30)
    } else if 0x61 <= u && u <= 0x66 {
        Some(u - 0x61 + 10)
    } else if 0x41 <= u && u <= 0x46 {
        Some(u - 0x41 + 10)
    } else {
        None
    }
}

/// `u8::from_str_radix(token, 16)`, as an `Option`.
pub fn parse_hex_byte(token: &str) -> (r: Option<u8>)
    ensures
        r == parse_hex_u8(token@),
{
    let n = token.unicode_len();
    if n == 0 {
        return None;
    }
    let first = token.get_char(0);
    if n == 1 && (first == '+' || first == '-') {
        return None;
    }
    let start: usize = if first == '+' {
        1
    } else {
        0
    };
    let ghost t = token@;
    let ghost digits = if t[0] == '+' {
        t.drop_first()
    } else {
        t
    };
    assert(digits =~= t.skip(start as int));
    let mut acc: u32 = 0;
    let mut i: usize = start;
    while i < n
        invariant
            start <= i <= n,
            n == t.len(),
            t == token@,
            t.len() > 0,
            !(t.len() == 1 && (t[0] == '+' || t[0] == '-')),
            digits == (if t.len() > 0 && t[0] == '+' {
                t.drop_first()
            } else {
                t
            }),
            start <= 1,
            digits =~= t.skip(start as int),
            all_hex(digits.take(i - start)),
            acc == hex_value(digits.take(i - start)),
            acc <= 255,
        decreases n - i,
    {
        let c = token.get_char(i);
        let ghost k = i - start;
        assert(digits[k] == c);
        match hex_digit_value(c) {
            None => {
                assert(!all_hex(digits)) by {
                    assert(hex_digit(digits[k]) is None);
                }
                return None;
            },
            Some(d) => {
                let next: u32 = acc * 16 + d;
                proof {
                    let p = digits.take(k + 1);
                    assert(p.drop_last() =~= digits.take(k));
                    assert(p.last() == c);
                    assert(all_hex(p)) by {
                        assert forall|j: int| 0 <= j < p.len() implies (#[trigger] hex_digit(
                            p[j],
                        )) is Some by {
                            if j < k {
                                assert(p[j] == digits.take(k)[j]);
                            }
                        }
                    }
                }
                if next > 255 {
                    proof {
                        if all_hex(digits) {
                            lemma_hex_value_prefix(digits, k + 1);
                        }
                    }
                    return None;
                }
                acc = next;
                i = i + 1;
            },
        }
    }
    proof {
        assert(digits.take(n - start) =~= digits);
    }
    Some(acc as u8)
}

/// The element for one pattern token: `Some(None)` for `?`, `Some(Some(b))`
/// for a hexadecimal byte, `None` for anything else.
pub fn parse_pattern_element(token: &str) -> (r: Option<Option<u8>>)
    ensures
        r == pattern_element(token@),
{
    let n = token.unicode_len();
    if n == 1 && token.get_char(0) == '?' {
        assert(token@ =~= seq!['?']);
        return Some(None);
    }
    assert(!(token@ =~= seq!['?']));
    match parse_hex_byte(token) {
        Some(b) => Some(Some(b)),
        None => None,
    }
}

spec fn ranges_view(v: Seq<(usize, usize)>) -> Seq<(int, int)> {
    v.map_values(|p: (usize, usize)| (p.0 as int, p.1 as int))
}

/// The start and end of each whitespace-separated token of `s`.
fn split_tokens(s: &str) -> (r: Vec<(usize, usize)>)
    ensures
        ranges_view(r@) == token_ranges(s@),
        forall|k: int| 0 <= k < r@.len() ==> (#[trigger] r@[k]).0 < r@[k].1 <= s@.len(),
{
    let n = s.unicode_len();
    let ghost t = s@;
    let mut ranges: Vec<(usize, usize)> = Vec::new();
    let mut prev_ws = true;
    let mut i: usize = 0;
    assert(t.take(0) =~= Seq::<char>::empty());
    while i < n
        invariant
            i <= n,
            n == t.len(),
            t == s@,
            ranges_view(ranges@) == token_ranges(t.take(i as int)),
            forall|k: int| 0 <= k < ranges@.len() ==> (#[trigger] ranges@[k]).0 < ranges@[k].1 <= i,
            prev_ws <==> (i == 0 || is_whitespace(t[i - 1])),
            !prev_ws ==> ranges@.len() > 0 && ranges@.last().1 == i,
        decreases n - i,
    {
        let c = s.get_char(i);
        let ghost old_ranges = ranges@;
        let ghost p = t.take(i + 1);
        assert(p.drop_last() =~= t.take(i as int));
        assert(p[i as int] == c);
        assert(i > 0 ==> p[i - 1] == t[i - 1]);
        if is_whitespace_char(c) {
            prev_ws = true;
        } else if prev_ws {
            ranges.push((i, i + 1));
            prev_ws = false;
            assert(ranges_view(ranges@) =~= ranges_view(old_ranges).push((i as int, i + 1)));
        } else {
            let k = ranges.len() - 1;
            let st = ranges[k].0;
            ranges.set(k, (st, i + 1));
            assert(ranges_view(ranges@) =~= ranges_view(old_ranges).update(
                k as int,
                (st as int, i + 1),
            ));
        }
        i = i + 1;
    }
    assert(t.take(n as int) =~= t);
    ranges
}

/// Parses an IDA-style pattern: whitespace-separated hexadecimal bytes, with
/// `?` for a byte that matches anything.
///
/// Fails on the first token that is neither, which the error carries.
pub fn parse_ida(pattern: &'static str) -> (r: Result<Vec<Option<u8>>, ScanError>)
    ensures
        match r {
            Ok(v) => {
                &&& v@.len() == token_ranges(pattern@).len()
                &&& forall|k: int|
                    0 <= k < v@.len() ==> pattern_element(token(pattern@, k)) == Some(
                        #[trigger] v@[k],
                    )
            },
            Err(ScanError::ParsePattern { failed_byte }) => exists|k: int|
                0 <= k < token_ranges(pattern@).len() && failed_byte@ == token(pattern@, k)
                    && pattern_element(token(pattern@, k)) is None && forall|j: int|
                    0 <= j < k ==> (#[trigger] pattern_element(token(pattern@, j))) is Some,
            Err(_) => false,
        },
{
    let ranges = split_tokens(pattern);
    let ghost tr = token_ranges(pattern@);
    let mut bytes: Vec<Option<u8>> = Vec::new();
    let mut k: usize = 0;
    while k < ranges.len()
        invariant
            k <= ranges@.len(),
            ranges_view(ranges@) == tr,
            tr == token_ranges(pattern@),
            forall|j: int| 0 <= j < ranges@.len() ==> (#[trigger] ranges@[j]).0 < ranges@[j].1 <= pattern@.len(),
            bytes@.len() == k,
            forall|j: int|
                0 <= j < k ==> pattern_element(token(pattern@, j)) == Some(#[trigger] bytes@[j]),
        decreases ranges@.len() - k,
    {
        let (a, b) = ranges[k];
        assert(tr[k as int] == (a as int, b as int));
        let tok: &'static str = pattern.substring_char(a, b);
        assert(tok@ == token(pattern@, k as int));
        match parse_pattern_element(tok) {
            Some(e) => {
                bytes.push(e);
            },
            None => {
                assert forall|j: int| 0 <= j < k implies (#[trigger] pattern_element(
                    token(pattern@, j),
                )) is Some by {
                    assert(pattern_element(token(pattern@, j)) == Some(bytes@[j]));
                }
                return Err(ScanError::ParsePattern { failed_byte: tok });
            },
        }
        k = k + 1;
    }
    Ok(bytes)
}

// ---------------------------------------------------------------------------
// Matching
// ---------------------------------------------------------------------------

/// Every position that both `bytes` and `pattern` have is either a wildcard or
/// equal.
pub open spec fn pattern_matches(bytes: Seq<u8>, pattern: Seq<Option<u8>>) -> bool {
    forall|i: int|
        0 <= i < bytes.len() && i < pattern.len() ==> match #[trigger] pattern[i] {
            Some(b) => b == bytes[i],
            None => true,
        }
}

/// Whether `slice` fits `pattern`, compared over their common length.
pub fn matches_pattern(slice: &[u8], pattern: &[Option<u8>]) -> (r: bool)
    ensures
        r == pattern_matches(slice@, pattern@),
{
    let n = if slice.len() < pattern.len() {
        slice.len()
    } else {
        pattern.len()
    };
    let mut i: usize = 0;
    while i < n
        invariant
            i <= n,
            n <= slice@.len(),
            n <= pattern@.len(),
            n == slice@.len() || n == pattern@.len(),
            forall|j: int|
                0 <= j < i ==> match #[trigger] pattern@[j] {
                    Some(b) => b == slice@[j],
                    None => true,
                },
        decreases n - i,
    {
        match pattern[i] {
            Some(b) => {
                if b != slice[i] {
                    return false;
                }
            },
            None => {},
        }
        i = i + 1;
    }
    true
}

/// Whether `buffer[start..start + pattern.len()]` fits `pattern`.
fn matches_at(buffer: &[u8], start: usize, pattern: &[Option<u8>]) -> (r: bool)
    requires
        start + pattern@.len() <= buffer@.len(),
    ensures
        r == pattern_matches(buffer@.subrange(start as int, start + pattern@.len()), pattern@),
{
    let n = pattern.len();
    let _blen = buffer.len();
    let ghost w = buffer@.subrange(start as int, start + n);
    let mut i: usize = 0;
    while i < n
        invariant
            i <= n,
            n == pattern@.len(),
            start + n <= buffer@.len(),
            buffer@.len() <= usize::MAX,
            w == buffer@.subrange(start as int, start + n),
            forall|j: int|
                0 <= j < i ==> match #[trigger] pattern@[j] {
                    Some(b) => b == w[j],
                    None => true,
                },
        decreases n - i,
    {
        match pattern[i] {
            Some(b) => {
                if b != buffer[start + i] {
                    assert(w[i as int] == buffer@[start + i]);
                    return false;
                }
            },
            None => {},
        }
        i = i + 1;
    }
    true
}

/// The pattern fits `buffer` at `i`, reading forwards from `i`.
pub open spec fn match_starting_at(buffer: Seq<u8>, pattern: Seq<Option<u8>>, i: int) -> bool {
    pattern_matches(buffer.subrange(i, i + pattern.len()), pattern)
}

/// The pattern fits `buffer` just before `i`, ending at `i`.
pub open spec fn match_ending_at(buffer: Seq<u8>, pattern: Seq<Option<u8>>, i: int) -> bool {
    pattern_matches(buffer.subrange(i - pattern.len(), i), pattern)
}

/// The first start below `buffer.len() - pattern.len()` at which the pattern
/// fits.
pub fn find_forward(buffer: &[u8], pattern: &[Option<u8>]) -> (r: Option<usize>)
    requires
        pattern@.len() <= buffer@.len(),
    ensures
        match r {
            Some(i) => {
                &&& i < buffer@.len() - pattern@.len()
                &&& match_starting_at(buffer@, pattern@, i as int)
                &&& forall|j: int| 0 <= j < i ==> !#[trigger] match_starting_at(buffer@, pattern@, j)
            },
            None => forall|j: int|
                0 <= j < buffer@.len() - pattern@.len() ==> !#[trigger] match_starting_at(
                    buffer@,
                    pattern@,
                    j,
                ),
        },
{
    let end = buffer.len() - pattern.len();
    let mut i: usize = 0;
    while i < end
        invariant
            i <= end,
            end == buffer@.len() - pattern@.len(),
            forall|j: int| 0 <= j < i ==> !#[trigger] match_starting_at(buffer@, pattern@, j),
        decreases end - i,
    {
        if matches_at(buffer, i, pattern) {
            return Some(i);
        }
        i = i + 1;
    }
    None
}

/// The last end in `pattern.len()..buffer.len()` (the end excluded) at which
/// the pattern fits.
pub fn find_backward(buffer: &[u8], pattern: &[Option<u8>]) -> (r: Option<usize>)
    requires
        pattern@.len() <= buffer@.len(),
    ensures
        match r {
            Some(i) => {
                &&& pattern@.len() <= i < buffer@.len()
                &&& match_ending_at(buffer@, pattern@, i as int)
                &&& forall|j: int|
                    i < j < buffer@.len() ==> !#[trigger] match_ending_at(buffer@, pattern@, j)
            },
            None => forall|j: int|
                pattern@.len() <= j < buffer@.len() ==> !#[trigger] match_ending_at(
                    buffer@,
                    pattern@,
                    j,
                ),
        },
{
    let plen = pattern.len();
    let mut i: usize = buffer.len();
    while i > plen
        invariant
            plen <= i <= buffer@.len(),
            plen == pattern@.len(),
            forall|j: int| i <= j < buffer@.len() ==> !#[trigger] match_ending_at(buffer@, pattern@, j),
        decreases i,
    {
        i = i - 1;
        if matches_at(buffer, i - plen, pattern) {
            return Some(i);
        }
    }
    None
}

// ---------------------------------------------------------------------------
// Scanning the process in chunks
// ---------------------------------------------------------------------------

/// What a scanning thread does after looking at one chunk.
#[derive(Debug, Clone, Copy, PartialEq, Eq, Structural)]
pub enum ScanStep {
    /// The pattern starts at this address.
    Found(u64),
    /// Read the next chunk at this address.
    Continue(u64),
}

/// How far a scanning thread moves between chunks, so that consecutive chunks
/// overlap by the pattern's length.
pub open spec fn scan_step(pattern_len: nat) -> int {
    CHUNK_SIZE - pattern_len
}

/// The forward thread looked at the chunk read at `offset`.
pub fn forward_scan_step(offset: u64, buffer: &[u8], pattern: &[Option<u8>]) -> (r: ScanStep)
    requires
        buffer@.len() == CHUNK_SIZE,
        pattern@.len() <= CHUNK_SIZE,
        offset + CHUNK_SIZE <= u64::MAX,
    ensures
        match r {
            ScanStep::Found(a) => exists|i: int|
                0 <= i < CHUNK_SIZE - pattern@.len() && a == offset + i && match_starting_at(
                    buffer@,
                    pattern@,
                    i,
                ) && forall|j: int| 0 <= j < i ==> !#[trigger] match_starting_at(buffer@, pattern@, j),
            ScanStep::Continue(next) => {
                &&& next == offset + scan_step(pattern@.len())
                &&& forall|j: int|
                    0 <= j < CHUNK_SIZE - pattern@.len() ==> !#[trigger] match_starting_at(
                        buffer@,
                        pattern@,
                        j,
                    )
            },
        },
{
    match find_forward(buffer, pattern) {
        Some(i) => ScanStep::Found(offset + i as u64),
        None => ScanStep::Continue(offset + (CHUNK_SIZE - pattern.len()) as u64),
    }
}

/// Where the backward thread reads its next chunk, when it can go back any
/// further from `offset`.
pub fn backward_read_offset(offset: u64, pattern_len: usize) -> (r: Option<u64>)
    requires
        pattern_len <= CHUNK_SIZE,
    ensures
        match r {
            Some(next) => next == offset - scan_step(pattern_len as nat),
            None => offset < scan_step(pattern_len as nat),
        },
{
    offset.checked_sub((CHUNK_SIZE - pattern_len) as u64)
}

/// The backward thread looked at the chunk that ends at `offset` (read at
/// `offset - scan_step`).
pub fn backward_scan_step(offset: u64, buffer: &[u8], pattern: &[Option<u8>]) -> (r: ScanStep)
    requires
        buffer@.len() == CHUNK_SIZE,
        pattern@.len() <= CHUNK_SIZE,
        offset >= scan_step(pattern@.len()),
    ensures
        match r {
            ScanStep::Found(a) => exists|i: int|
                pattern@.len() <= i < CHUNK_SIZE && a == offset - (CHUNK_SIZE - i)
                    && match_ending_at(buffer@, pattern@, i) && forall|j: int|
                    i < j < CHUNK_SIZE ==> !#[trigger] match_ending_at(buffer@, pattern@, j),
            ScanStep::Continue(next) => {
                &&& next == offset - scan_step(pattern@.len())
                &&& forall|j: int|
                    pattern@.len() <= j < CHUNK_SIZE ==> !#[trigger] match_ending_at(
                        buffer@,
                        pattern@,
                        j,
                    )
            },
        },
{
    let step = (CHUNK_SIZE - pattern.len()) as u64;
    match find_backward(buffer, pattern) {
        Some(i) => {
            assert(offset >= CHUNK_SIZE - i) by {
                assert(step >= CHUNK_SIZE - i);
            }
            ScanStep::Found(offset - (CHUNK_SIZE - i) as u64)
        },
        None => ScanStep::Continue(offset - step),
    }
}

// ---------------------------------------------------------------------------
// From a match to the reported address
// ---------------------------------------------------------------------------

/// The address of a match moved by the scan's offset; fails with `Overflow`
/// when that leaves the address space.
pub fn offset_match(found: usize, offset: isize) -> (r: Result<u64, ScanError>)
    ensures
        match r {
            Ok(a) => a == found + offset && 0 <= found + offset <= usize::MAX,
            Err(e) => e is Overflow && !(0 <= found + offset <= usize::MAX),
        },
{
    match found.checked_add_signed(offset) {
        Some(a) => Ok(a as u64),
        None => Err(ScanError::Overflow),
    }
}

/// Whether the scan mode reads the process at the moved match address.
pub fn needs_read(mode: &ScanMode) -> (r: bool)
    ensures
        r == !(*mode is Absolute),
{
    match mode {
        ScanMode::Absolute => false,
        _ => true,
    }
}

/// The 32-bit signed value of a 32-bit read.
pub open spec fn as_i32(v: u32) -> int {
    if v < 0x8000_0000 {
        v as int
    } else {
        v - 0x1_0000_0000
    }
}

/// The address that a mode makes of `addr` and of the 32-bit value read at
/// `addr` (`read`, ignored by `Absolute`).
pub open spec fn mode_target(addr: u64, mode: ScanMode, value: u32) -> Option<int> {
    match mode {
        ScanMode::Absolute => Some(addr as int),
        ScanMode::Direct32 => Some(value as int),
        ScanMode::Relative(b) => {
            let t = addr + as_i32(value) + b;
            if 0 <= t <= u64::MAX {
                Some(t)
            } else {
                None
            }
        },
    }
}

/// Applies the scan mode to the moved match address `addr`.
pub fn apply_scan_mode(addr: u64, mode: &ScanMode, read: Result<u32, ProcessError>) -> (r: Result<
    u64,
    ScanError,
>)
    requires
        *mode matches ScanMode::Relative(b) ==> (read is Ok ==> i32::MIN <= as_i32(read->Ok_0) + b
            <= i32::MAX),
    ensures
        *mode is Absolute ==> r == Ok::<u64, ScanError>(addr),
        !(*mode is Absolute) && read is Err ==> (r matches Err(ScanError::ProcessError { err })
            && read == Err::<u32, ProcessError>(err)),
        !(*mode is Absolute) && read is Ok ==> match mode_target(addr, *mode, read->Ok_0) {
            Some(t) => r matches Ok(a) && a == t,
            None => r matches Err(ScanError::OverflowRelative),
        },
{
    match mode {
        ScanMode::Absolute => Ok(addr),
        ScanMode::Direct32 => match read {
            Ok(v) => Ok(v as u64),
            Err(err) => Err(ScanError::ProcessError { err }),
        },
        ScanMode::Relative(bytes_to_next_instr) => match read {
            Ok(v) => {
                let displacement = v as i32;
                assert(v < 0x8000_0000 ==> displacement == v) by (bit_vector)
                    requires
                        displacement == v as i32,
                ;
                assert(v >= 0x8000_0000 ==> displacement == v - 0x1_0000_0000) by (bit_vector)
                    requires
                        displacement == v as i32,
                ;
                let total: i32 = displacement + *bytes_to_next_instr;
                match addr.checked_add_signed(total as i64) {
                    Some(a) => Ok(a),
                    None => Err(ScanError::OverflowRelative),
                }
            },
            Err(err) => Err(ScanError::ProcessError { err }),
        },
    }
}

/// A scan reports addresses relative to the module base, clamped to `0`.
pub fn relative_to_module(addr: u64, module_base: u64) -> (r: u64)
    ensures
        r == if addr < module_base {
            0
        } else {
            addr - module_base
        },
{
    addr.saturating_sub(module_base)
}

/// The address that the forward and backward threads of a scan start from.
pub fn scan_start(module_base: u64, scan_origin: u64) -> (r: u64)
    requires
        module_base + scan_origin <= u64::MAX,
    ensures
        r == module_base + scan_origin,
{
    module_base + scan_origin
}

/// A scan that ran to the end without a match reports `NotFound`.
pub fn not_found(scan: &AobScan) -> (r: ScanError)
    ensures
        r matches ScanError::NotFound { scan_name } && scan_name == scan.name,
{
    ScanError::NotFound { scan_name: scan.name }
}

/// What is left of a scan once the search is over.
#[derive(Debug)]
pub enum ScanPhase {
    /// Read the 32-bit value at this address, then finish with [`after_read`].
    ReadAt(u64),
    /// The scan's result.
    Done(Result<u64, ScanError>),
}

/// Finishes a scan after the search: `NotFound` when no match was found;
/// otherwise the match moved by the scan's offset (`Overflow` when that
/// leaves the address space), reported relative to the module base in
/// `Absolute` mode, and to be read in the other modes.
pub fn after_search(scan: &AobScan, found: Option<usize>, module_base: u64) -> (r: ScanPhase)
    ensures
        match found {
            None => r matches ScanPhase::Done(Err(ScanError::NotFound { scan_name })) && scan_name
                == scan.name,
            Some(f) => if !(0 <= f + scan.offset <= usize::MAX) {
                r matches ScanPhase::Done(Err(ScanError::Overflow))
            } else if scan.scan_mode is Absolute {
                r matches ScanPhase::Done(Ok(a)) && a == if f + scan.offset < module_base {
                    0
                } else {
                    f + scan.offset - module_base
                }
            } else {
                r matches ScanPhase::ReadAt(a) && a == f + scan.offset
            },
        },
{
    let f = match found {
        None => return ScanPhase::Done(Err(not_found(scan))),
        Some(f) => f,
    };
    let addr = match offset_match(f, scan.offset) {
        Ok(a) => a,
        Err(e) => return ScanPhase::Done(Err(e)),
    };
    if needs_read(&scan.scan_mode) {
        ScanPhase::ReadAt(addr)
    } else {
        ScanPhase::Done(Ok(relative_to_module(addr, module_base)))
    }
}

/// Finishes a scan in the `Direct32` or `Relative` mode with the value read
/// at `addr`: the address the mode makes of it, relative to the module base;
/// the read's failure, or `OverflowRelative`, otherwise.
pub fn after_read(addr: u64, mode: &ScanMode, read: Result<u32, ProcessError>, module_base: u64) -> (r: Result<
    u64,
    ScanError,
>)
    requires
        !(*mode is Absolute),
        *mode matches ScanMode::Relative(b) ==> (read is Ok ==> i32::MIN <= as_i32(read->Ok_0) + b
            <= i32::MAX),
    ensures
        match read {
            Err(err) => r matches Err(ScanError::ProcessError { err: e }) && e == err,
            Ok(v) => match mode_target(addr, *mode, v) {
                Some(t) => r matches Ok(a) && a == if t < module_base {
                    0
                } else {
                    t - module_base
                },
                None => r matches Err(ScanError::OverflowRelative),
            },
        },
{
    let a = apply_scan_mode(addr, mode, read)?;
    Ok(relative_to_module(a, module_base))
}

} // verus!
