use vstd::prelude::*;
use crate::attached::ParseError;
use crate::game_version::Game;

verus! {

/// Whether a byte is ASCII white space: space, tab, line feed, vertical tab,
/// form feed or carriage return.
pub open spec fn is_space(b: u8) -> bool {
    b == 0x20 || (0x09 <= b && b <= 0x0D)
}

/// The first index from `i` on at which `s` holds `b`; the length of `s`
/// when there is none.
pub open spec fn find_from(s: Seq<u8>, i: int, b: u8) -> int
    decreases s.len() - i,
{
    if 0 <= i < s.len() && s[i] != b {
        find_from(s, i + 1, b)
    } else {
        i
    }
}

/// The first index from `i` on that is not white space.
pub open spec fn skip_spaces(s: Seq<u8>, i: int) -> int
    decreases s.len() - i,
{
    if 0 <= i < s.len() && is_space(s[i]) {
        skip_spaces(s, i + 1)
    } else {
        i
    }
}

/// The end of the word that starts at `i`: the first white space from `i`
/// on, or the length of `s`.
pub open spec fn word_end(s: Seq<u8>, i: int) -> int
    decreases s.len() - i,
{
    if 0 <= i < s.len() && !is_space(s[i]) {
        word_end(s, i + 1)
    } else {
        i
    }
}

/// Where the word of index `n` (counting from 0) of `s` from `i` on starts;
/// the length of `s` where there are fewer words.
pub open spec fn word_start(s: Seq<u8>, i: int, n: nat) -> int
    decreases n,
{
    let st = skip_spaces(s, i);
    if n == 0 {
        st
    } else {
        word_start(s, word_end(s, st), (n - 1) as nat)
    }
}

/// The word of index `n` of `s`, words being separated by white space; empty
/// where `s` has fewer words.
pub open spec fn word(s: Seq<u8>, n: nat) -> Seq<u8> {
    let st = word_start(s, 0, n);
    s.subrange(st, word_end(s, st))
}

/// Whether `s` ends with `suffix`.
pub open spec fn ends_with(s: Seq<u8>, suffix: Seq<u8>) -> bool {
    suffix.len() <= s.len() && s.subrange(s.len() - suffix.len(), s.len() as int) == suffix
}

/// The value of a hexadecimal digit, either case.
pub open spec fn hex_digit(b: u8) -> Option<u8> {
    if 0x30 <= b <= 0x39 {
        Some((b - 0x30) as u8)
    } else if 0x41 <= b <= 0x46 {
        Some((b - 0x37) as u8)
    } else if 0x61 <= b <= 0x66 {
        Some((b - 0x57) as u8)
    } else {
        None
    }
}

/// Whether every byte of `d` is a hexadecimal digit.
pub open spec fn all_hex(d: Seq<u8>) -> bool {
    forall|i: int| 0 <= i < d.len() ==> (#[trigger] hex_digit(d[i])) is Some
}

/// The number that the hexadecimal digits `d` write, most significant first.
pub open spec fn hex_nat(d: Seq<u8>) -> nat
    decreases d.len(),
{
    if d.len() == 0 {
        0
    } else {
        hex_nat(d.drop_last()) * 16 + hex_digit(d.last()).unwrap() as nat
    }
}

/// The number that `d` writes in hexadecimal: `None` unless `d` is a
/// non-empty run of hexadecimal digits whose value fits in 64 bits.
pub open spec fn hex_value(d: Seq<u8>) -> Option<u64> {
    if d.len() > 0 && all_hex(d) && hex_nat(d) <= u64::MAX {
        Some(hex_nat(d) as u64)
    } else {
        None
    }
}

/// What comes before the first `-` of an address range (all of it when it
/// has none).
pub open spec fn range_start(range: Seq<u8>) -> Seq<u8> {
    range.subrange(0, find_from(range, 0, 0x2D))
}

/// The path of a line of a process's memory maps: the rest of the line from
/// its sixth word on (a path may hold spaces); empty when the line has no
/// path.
pub open spec fn maps_path(line: Seq<u8>) -> Seq<u8> {
    line.subrange(word_start(line, 0, 5), line.len() as int)
}

/// The entry of a line of a process's memory maps for an executable: where
/// the line's path ends with `exe`, that path and the start of the line's
/// address range (the hexadecimal number before the `-` of its first word),
/// if that number reads.
pub open spec fn maps_line_entry(line: Seq<u8>, exe: Seq<u8>) -> Option<(Seq<u8>, u64)> {
    let path = maps_path(line);
    if ends_with(path, exe) {
        match hex_value(range_start(word(line, 0))) {
            Some(base) => Some((path, base)),
            None => None,
        }
    } else {
        None
    }
}

/// The first entry for `exe` among the lines of `maps` from index `i` on.
pub open spec fn maps_entry_from(maps: Seq<u8>, i: int, exe: Seq<u8>) -> Option<(Seq<u8>, u64)>
    decreases maps.len() + 1 - i,
{
    if 0 <= i < maps.len() {
        let e = find_from(maps, i, 0x0A);
        proof {
            lemma_find_from_bounds(maps, i, 0x0A);
        }
        let found = maps_line_entry(maps.subrange(i, e), exe);
        if found is Some {
            found
        } else {
            maps_entry_from(maps, e + 1, exe)
        }
    } else {
        None
    }
}

/// The first line of a process's memory maps (lines end with a line feed)
/// whose path ends with `exe` and whose address range reads: that path and
/// the start of the range.
pub open spec fn maps_exe_entry(maps: Seq<u8>, exe: Seq<u8>) -> Option<(Seq<u8>, u64)> {
    maps_entry_from(maps, 0, exe)
}

/// The value of an environment entry: what follows its first `=`, where it
/// has one.
pub open spec fn entry_value(entry: Seq<u8>) -> Option<Seq<u8>> {
    let k = find_from(entry, 0, 0x3D);
    if k < entry.len() {
        Some(entry.subrange(k + 1, entry.len() as int))
    } else {
        None
    }
}

/// The first value that ends with `exe` among the entries of `environ` from
/// index `i` on.
pub open spec fn environ_path_from(environ: Seq<u8>, i: int, exe: Seq<u8>) -> Option<Seq<u8>>
    decreases environ.len() + 1 - i,
{
    if 0 <= i <= environ.len() {
        let e = find_from(environ, i, 0);
        proof {
            lemma_find_from_bounds(environ, i, 0);
        }
        let found = match entry_value(environ.subrange(i, e)) {
            Some(v) => if ends_with(v, exe) {
                Some(v)
            } else {
                None
            },
            None => None,
        };
        if found is Some {
            found
        } else {
            environ_path_from(environ, e + 1, exe)
        }
    } else {
        None
    }
}

/// The first value of a process's environment (entries `NAME=value`, each
/// ended by a zero byte) that ends with `exe`.
pub open spec fn environ_exe_path(environ: Seq<u8>, exe: Seq<u8>) -> Option<Seq<u8>> {
    environ_path_from(environ, 0, exe)
}

/// A search from `i` ends between `i` and the end of `s`.
pub proof fn lemma_find_from_bounds(s: Seq<u8>, i: int, b: u8)
    requires
        0 <= i <= s.len(),
    ensures
        i <= find_from(s, i, b) <= s.len(),
    decreases s.len() - i,
{
    if i < s.len() && s[i] != b {
        lemma_find_from_bounds(s, i + 1, b);
    }
}

proof fn lemma_hex_prefix(d: Seq<u8>, k: int)
    requires
        all_hex(d),
        0 <= k <= d.len(),
    ensures
        hex_nat(d.take(k)) <= hex_nat(d),
    decreases d.len(),
{
    if k < d.len() {
        let rest = d.drop_last();
        assert(all_hex(rest)) by {
            assert forall|i: int| 0 <= i < rest.len() implies (#[trigger] hex_digit(rest[i])) is Some by {
                assert(rest[i] == d[i]);
                assert(hex_digit(d[i]) is Some);
            }
        }
        lemma_hex_prefix(rest, k);
        assert(rest.take(k) =~= d.take(k));
    } else {
        assert(d.take(k) =~= d);
    }
}

fn space(b: u8) -> (r: bool)
    ensures
        r == is_space(b),
{
    b == 0x20 || (0x09 <= b && b <= 0x0D)
}

/// The first index from `i` on at which `s` holds `b`, or its length.
fn find_byte(s: &[u8], i: usize, b: u8) -> (r: usize)
    requires
        i <= s@.len(),
    ensures
        r == find_from(s@, i as int, b),
        i <= r <= s@.len(),
{
    let mut j = i;
    while j < s.len() && s[j] != b
        invariant
            i <= j <= s@.len(),
            find_from(s@, j as int, b) == find_from(s@, i as int, b),
        decreases s@.len() - j,
    {
        j = j + 1;
    }
    j
}

fn skip_spaces_at(s: &[u8], i: usize) -> (r: usize)
    requires
        i <= s@.len(),
    ensures
        r == skip_spaces(s@, i as int),
        i <= r <= s@.len(),
{
    let mut j = i;
    while j < s.len() && space(s[j])
        invariant
            i <= j <= s@.len(),
            skip_spaces(s@, j as int) == skip_spaces(s@, i as int),
        decreases s@.len() - j,
    {
        j = j + 1;
    }
    j
}

fn word_end_at(s: &[u8], i: usize) -> (r: usize)
    requires
        i <= s@.len(),
    ensures
        r == word_end(s@, i as int),
        i <= r <= s@.len(),
{
    let mut j = i;
    while j < s.len() && !space(s[j])
        invariant
            i <= j <= s@.len(),
            word_end(s@, j as int) == word_end(s@, i as int),
        decreases s@.len() - j,
    {
        j = j + 1;
    }
    j
}

/// The bounds of the word of index `n` of `s`.
fn word_bounds(s: &[u8], n: usize) -> (r: (usize, usize))
    ensures
        r.0 == word_start(s@, 0, n as nat),
        r.1 == word_end(s@, r.0 as int),
        r.0 <= r.1 <= s@.len(),
{
    let mut pos: usize = 0;
    let mut k: usize = 0;
    while k < n
        invariant
            k <= n,
            pos <= s@.len(),
            word_start(s@, pos as int, (n - k) as nat) == word_start(s@, 0, n as nat),
        decreases n - k,
    {
        let st = skip_spaces_at(s, pos);
        pos = word_end_at(s, st);
        k = k + 1;
    }
    let st = skip_spaces_at(s, pos);
    let end = word_end_at(s, st);
    (st, end)
}

/// The bytes of `s` from `a` up to `b`.
fn copy_range(s: &[u8], a: usize, b: usize) -> (r: Vec<u8>)
    requires
        a <= b <= s@.len(),
    ensures
        r@ == s@.subrange(a as int, b as int),
{
    let mut out: Vec<u8> = Vec::new();
    let mut k = a;
    while k < b
        invariant
            a <= k <= b,
            b <= s@.len(),
            out@ == s@.subrange(a as int, k as int),
        decreases b - k,
    {
        out.push(s[k]);
        k = k + 1;
        assert(out@ =~= s@.subrange(a as int, k as int));
    }
    out
}

fn has_suffix(s: &[u8], suffix: &[u8]) -> (r: bool)
    ensures
        r == ends_with(s@, suffix@),
{
    if suffix.len() > s.len() {
        return false;
    }
    let off = s.len() - suffix.len();
    let mut k: usize = 0;
    while k < suffix.len()
        invariant
            k <= suffix@.len(),
            off + suffix@.len() == s@.len(),
            s@.len() == s.len(),
            forall|j: int| 0 <= j < k ==> s@[off + j] == suffix@[j],
        decreases suffix@.len() - k,
    {
        assert(off + k < s@.len());
        if s[off + k] != suffix[k] {
            assert(s@.subrange(off as int, s@.len() as int)[k as int] != suffix@[k as int]);
            return false;
        }
        k = k + 1;
    }
    assert(s@.subrange(off as int, s@.len() as int) =~= suffix@);
    true
}

fn digit_value(b: u8) -> (r: Option<u8>)
    ensures
        r == hex_digit(b),
        r matches Some(v) ==> v < 16,
{
    if 0x30 <= b && b <= 0x39 {
        Some(b - 0x30)
    } else if 0x41 <= b && b <= 0x46 {
        Some(b - 0x37)
    } else if 0x61 <= b && b <= 0x66 {
        Some(b - 0x57)
    } else {
        None
    }
}

/// The number that the bytes of `d` before `end` write in hexadecimal.
pub fn parse_hex(d: &[u8], end: usize) -> (r: Option<u64>)
    requires
        end <= d@.len(),
    ensures
        r == hex_value(d@.take(end as int)),
{
    let ghost digits = d@.take(end as int);
    if end == 0 {
        return None;
    }
    let mut v: u64 = 0;
    let mut k: usize = 0;
    while k < end
        invariant
            k <= end <= d@.len(),
            digits == d@.take(end as int),
            all_hex(digits.take(k as int)),
            v == hex_nat(digits.take(k as int)),
        decreases end - k,
    {
        let ghost next = digits.take(k + 1);
        assert(next.drop_last() =~= digits.take(k as int));
        assert(next.last() == d@[k as int]);
        match digit_value(d[k]) {
            None => {
                assert(!all_hex(digits)) by {
                    assert(hex_digit(digits[k as int]) is None);
                }
                return None;
            },
            Some(dig) => {
                if v > (u64::MAX - dig as u64) / 16 {
                    assert(hex_nat(next) > u64::MAX);
                    proof {
                        if all_hex(digits) {
                            lemma_hex_prefix(digits, k + 1);
                        }
                    }
                    return None;
                }
                v = v * 16 + dig as u64;
                assert(all_hex(next)) by {
                    assert forall|i: int| 0 <= i < next.len() implies (#[trigger] hex_digit(next[i])) is Some by {
                        if i < k {
                            assert(next[i] == digits.take(k as int)[i]);
                        }
                    }
                }
            },
        }
        k = k + 1;
    }
    assert(digits.take(end as int) =~= digits);
    Some(v)
}

/// The view of a maps entry.
pub open spec fn entry_view(e: Option<(Vec<u8>, u64)>) -> Option<(Seq<u8>, u64)> {
    match e {
        Some((path, base)) => Some((path@, base)),
        None => None,
    }
}

/// The entry of one line of a process's memory maps for `exe`.
pub fn read_maps_line(line: &[u8], exe: &[u8]) -> (r: Option<(Vec<u8>, u64)>)
    ensures
        entry_view(r) == maps_line_entry(line@, exe@),
{
    let (pa, _) = word_bounds(line, 5);
    let path = copy_range(line, pa, line.len());
    if !has_suffix(path.as_slice(), exe) {
        return None;
    }
    let (ra, rb) = word_bounds(line, 0);
    let range = copy_range(line, ra, rb);
    let dash = find_byte(range.as_slice(), 0, 0x2D);
    assert(range@.take(dash as int) =~= range_start(range@));
    match parse_hex(range.as_slice(), dash) {
        Some(base) => Some((path, base)),
        None => None,
    }
}

/// The path of the executable `exe` in a process's memory maps, with the
/// address it is loaded at: from the first line whose path ends with `exe`
/// and whose address range reads.
pub fn maps_exe_entry_of(maps: &[u8], exe: &[u8]) -> (r: Option<(Vec<u8>, u64)>)
    ensures
        entry_view(r) == maps_exe_entry(maps@, exe@),
{
    let mut i: usize = 0;
    while i < maps.len()
        invariant
            i <= maps@.len(),
            maps_entry_from(maps@, i as int, exe@) == maps_exe_entry(maps@, exe@),
        decreases maps@.len() - i,
    {
        let e = find_byte(maps, i, 0x0A);
        let line = copy_range(maps, i, e);
        let found = read_maps_line(line.as_slice(), exe);
        if found.is_some() {
            return found;
        }
        if e >= maps.len() {
            assert(maps_entry_from(maps@, e + 1, exe@) is None);
            return None;
        }
        i = e + 1;
    }
    None
}

/// The value of an environment entry that ends with `exe`.
fn entry_path(entry: &[u8], exe: &[u8]) -> (r: Option<Vec<u8>>)
    ensures
        r matches Some(v) ==> entry_value(entry@) == Some(v@) && ends_with(v@, exe@),
        r is None ==> !(entry_value(entry@) matches Some(v) && ends_with(v, exe@)),
{
    let k = find_byte(entry, 0, 0x3D);
    if k >= entry.len() {
        return None;
    }
    let value = copy_range(entry, k + 1, entry.len());
    if has_suffix(value.as_slice(), exe) {
        Some(value)
    } else {
        None
    }
}

/// The first value of a process's environment that ends with `exe`: the
/// path it was started from.
pub fn environ_exe_path_of(environ: &[u8], exe: &[u8]) -> (r: Option<Vec<u8>>)
    ensures
        r matches Some(v) ==> environ_exe_path(environ@, exe@) == Some(v@),
        r is None ==> environ_exe_path(environ@, exe@) is None,
{
    let mut i: usize = 0;
    loop
        invariant
            i <= environ@.len(),
            environ_path_from(environ@, i as int, exe@) == environ_exe_path(environ@, exe@),
        decreases environ@.len() - i,
    {
        let e = find_byte(environ, i, 0);
        let entry = copy_range(environ, i, e);
        let found = entry_path(entry.as_slice(), exe);
        if found.is_some() {
            return found;
        }
        if e >= environ.len() {
            assert(environ_path_from(environ@, e + 1, exe@) is None);
            return None;
        }
        i = e + 1;
    }
}

/// The file name of a game's executable.
pub open spec fn exe_name(game: Game) -> Seq<u8> {
    match game {
        Game::DarkSouls2 => seq![
            0x44u8, 0x61, 0x72, 0x6B, 0x53, 0x6F, 0x75, 0x6C, 0x73, 0x49, 0x49, 0x2E, 0x65, 0x78, 0x65,
        ],
        Game::EldenRing => seq![0x65u8, 0x6C, 0x64, 0x65, 0x6E, 0x72, 0x69, 0x6E, 0x67, 0x2E, 0x65, 0x78, 0x65],
    }
}

/// The file name of a game's executable (`DarkSoulsII.exe`,
/// `eldenring.exe`).
pub fn exe_name_of(game: Game) -> (r: Vec<u8>)
    ensures
        r@ == exe_name(game),
{
    let r = match game {
        Game::DarkSouls2 => vec![
            0x44u8, 0x61, 0x72, 0x6B, 0x53, 0x6F, 0x75, 0x6C, 0x73, 0x49, 0x49, 0x2E, 0x65, 0x78, 0x65,
        ],
        Game::EldenRing => vec![0x65u8, 0x6C, 0x64, 0x65, 0x6E, 0x72, 0x69, 0x6E, 0x67, 0x2E, 0x65, 0x78, 0x65],
    };
    assert(r@ =~= exe_name(game));
    r
}

/// The view of a file read: its bytes, or the kind of error.
pub open spec fn bytes_read_view(read: Result<Vec<u8>, String>) -> Result<Seq<u8>, String> {
    match read {
        Ok(b) => Ok(b@),
        Err(k) => Err(k),
    }
}

/// The view of a path and load address found, or the error.
pub open spec fn maps_result_view(r: Result<(Vec<u8>, u64), ParseError>) -> Result<(Seq<u8>, u64), ParseError> {
    match r {
        Ok((path, base)) => Ok((path@, base)),
        Err(e) => Err(e),
    }
}

/// The view of a path found, or the error.
pub open spec fn path_result_view(r: Result<Vec<u8>, ParseError>) -> Result<Seq<u8>, ParseError> {
    match r {
        Ok(path) => Ok(path@),
        Err(e) => Err(e),
    }
}

/// What reading a game process's memory maps gives: the executable's path
/// and load address from the maps' text, `ScanMaps` without a kind when no
/// line names the executable, or `ScanMaps` with the kind of the error that
/// stopped the read.
pub open spec fn maps_result(pid: u32, game: Game, read: Result<Seq<u8>, String>) -> Result<(Seq<u8>, u64), ParseError> {
    match read {
        Err(kind) => Err(ParseError::ScanMaps { pid, error_kind: Some(kind) }),
        Ok(maps) => match maps_exe_entry(maps, exe_name(game)) {
            Some(entry) => Ok(entry),
            None => Err(ParseError::ScanMaps { pid, error_kind: None }),
        },
    }
}

/// The game executable's path and load address in a process, from the
/// read of its memory maps (their bytes, or the kind of error that stopped
/// the read).
pub fn scan_maps(pid: u32, game: Game, read: Result<Vec<u8>, String>) -> (r: Result<(Vec<u8>, u64), ParseError>)
    ensures
        maps_result_view(r) == maps_result(pid, game, bytes_read_view(read)),
{
    match read {
        Err(kind) => Err(ParseError::ScanMaps { pid, error_kind: Some(kind) }),
        Ok(maps) => {
            let exe = exe_name_of(game);
            match maps_exe_entry_of(maps.as_slice(), exe.as_slice()) {
                Some(entry) => Ok(entry),
                None => Err(ParseError::ScanMaps { pid, error_kind: None }),
            }
        },
    }
}

/// What reading a game process's environment gives: the first value that
/// ends with the executable's name, `ExeNotFound` without a kind when there
/// is none, or `ExeNotFound` with the kind of the error that stopped the
/// read.
pub open spec fn environ_result(pid: u32, game: Game, read: Result<Seq<u8>, String>) -> Result<Seq<u8>, ParseError> {
    match read {
        Err(kind) => Err(ParseError::ExeNotFound { pid, error_kind: Some(kind) }),
        Ok(environ) => match environ_exe_path(environ, exe_name(game)) {
            Some(path) => Ok(path),
            None => Err(ParseError::ExeNotFound { pid, error_kind: None }),
        },
    }
}

/// The game executable's path in a process, from the read of its
/// environment (its bytes, or the kind of error that stopped the read).
pub fn environ_path(pid: u32, game: Game, read: Result<Vec<u8>, String>) -> (r: Result<Vec<u8>, ParseError>)
    ensures
        path_result_view(r) == environ_result(pid, game, bytes_read_view(read)),
{
    match read {
        Err(kind) => Err(ParseError::ExeNotFound { pid, error_kind: Some(kind) }),
        Ok(environ) => {
            let exe = exe_name_of(game);
            match environ_exe_path_of(environ.as_slice(), exe.as_slice()) {
                Some(path) => Ok(path),
                None => Err(ParseError::ExeNotFound { pid, error_kind: None }),
            }
        },
    }
}

/// The view of a path and address found in the memory maps.
pub open spec fn found_in_maps_view(maps: Result<(String, u64), ParseError>) -> Result<(Seq<char>, u64), ParseError> {
    match maps {
        Ok((p, b)) => Ok((p@, b)),
        Err(e) => Err(e),
    }
}

/// The view of a path found in the environment.
pub open spec fn found_path_view(environ: Result<String, ParseError>) -> Result<Seq<char>, ParseError> {
    match environ {
        Ok(p) => Ok(p@),
        Err(e) => Err(e),
    }
}

/// The path of the game executable that a process's version is read from:
/// the one in its memory maps, else the one in its environment, else the
/// empty path (whose read then fails).
pub open spec fn chosen_exe_path(
    maps: Result<(Seq<char>, u64), ParseError>,
    environ: Result<Seq<char>, ParseError>,
) -> Seq<char> {
    match maps {
        Ok((path, _)) => path,
        Err(_) => match environ {
            Ok(path) => path,
            Err(_) => Seq::empty(),
        },
    }
}

/// The path of the game executable, from what was found in the memory maps
/// and in the environment.
pub fn exe_path(maps: &Result<(String, u64), ParseError>, environ: &Result<String, ParseError>) -> (r: String)
    ensures
        r@ == chosen_exe_path(found_in_maps_view(*maps), found_path_view(*environ)),
{
    match maps {
        Ok((path, _)) => path.clone(),
        Err(_) => match environ {
            Ok(path) => path.clone(),
            Err(_) => String::new(),
        },
    }
}

} // verus!
