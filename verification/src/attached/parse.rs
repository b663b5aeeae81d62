use vstd::prelude::*;
use crate::attached::{AddressSize, ParseError, ParsePeError, ParseState, PeFindError, error_count};
use crate::game_version::{DarkSouls2Version, EldenRingVersion, Game, GameVersion, ds2_release_numbers, er_release_numbers};

verus! {

/// Finds the version resource of a 64-bit image with `pelite`
/// (`PeFile::from_bytes`, `Pe::resources`, `Resources::find_resource` for
/// `RT_VERSION` id 1) and copies its bytes out: `PeMagic` for a 32-bit image,
/// and the parser's description of any other failure. Nothing is promised of
/// the outcome: pelite also checks where the buffer lies in memory (a slice
/// that is not suitably aligned is refused as misaligned), so equal bytes
/// need not give equal results.
#[verifier::external_body]
fn pe64_version_resource(image: &[u8]) -> (r: Result<Vec<u8>, PeFindError>)
{
    let found = pelite::pe64::PeFile::from_bytes(image).and_then(|pe| pelite::pe64::Pe::resources(pe))
        .map_err(pelite::resources::FindError::from)
        .and_then(|res| res.find_resource(&[pelite::resources::Name::VERSION, pelite::resources::Name::Id(1)]));
    match found {
        Ok(bytes) => Ok(bytes.to_vec()),
        Err(pelite::resources::FindError::Pe(pelite::Error::PeMagic)) => Err(PeFindError::PeMagic),
        Err(err) => Err(PeFindError::Other(err.to_str().to_string())),
    }
}

/// The 32-bit counterpart of [`pe64_version_resource`], with `pelite::pe32`;
/// a 64-bit image gives `PeMagic`. Nothing is promised of the outcome, for
/// the same reason.
#[verifier::external_body]
fn pe32_version_resource(image: &[u8]) -> (r: Result<Vec<u8>, PeFindError>)
{
    let found = pelite::pe32::PeFile::from_bytes(image).and_then(|pe| pelite::pe32::Pe::resources(pe))
        .map_err(pelite::resources::FindError::from)
        .and_then(|res| res.find_resource(&[pelite::resources::Name::VERSION, pelite::resources::Name::Id(1)]));
    match found {
        Ok(bytes) => Ok(bytes.to_vec()),
        Err(pelite::resources::FindError::Pe(pelite::Error::PeMagic)) => Err(PeFindError::PeMagic),
        Err(err) => Err(PeFindError::Other(err.to_str().to_string())),
    }
}

/// The little-endian 16-bit word at `i`.
pub open spec fn le16(r: Seq<u8>, i: int) -> u16 {
    (r[i] + 256 * r[i + 1]) as u16
}

/// The key of a version resource, `VS_VERSION_INFO` in UTF-16 with its
/// terminating zero.
pub open spec fn version_key() -> Seq<u8> {
    seq![
        0x56u8, 0, 0x53, 0, 0x5F, 0, 0x56, 0, 0x45, 0, 0x52, 0, 0x53, 0, 0x49, 0, 0x4F, 0, 0x4E, 0,
        0x5F, 0, 0x49, 0, 0x4E, 0, 0x46, 0, 0x4F, 0, 0, 0,
    ]
}

/// The signature that opens the fixed file information, `0xFEEF04BD`.
pub open spec fn fixed_info_signature() -> Seq<u8> {
    seq![0xBDu8, 0x04, 0xEF, 0xFE]
}

/// The product version (major, minor, patch) in the fixed file information
/// of a version resource: the record's length (first word) covers the
/// header, key and fixed part and lies within the resource; its value length
/// (second word) is the 52 bytes of the fixed part; its key (from byte 6) is
/// `VS_VERSION_INFO`; and the fixed part, at byte 40 after the padding,
/// opens with its signature. The product version's minor, major and patch
/// words then stand at bytes 56, 58 and 62. `None` for anything else.
pub open spec fn fixed_product_version(r: Seq<u8>) -> Option<(u16, u16, u16)> {
    if r.len() >= 92 && 92 <= le16(r, 0) <= r.len() && le16(r, 2) == 52 && r.subrange(6, 38)
        == version_key() && r.subrange(40, 44) == fixed_info_signature() {
        Some((le16(r, 58), le16(r, 56), le16(r, 62)))
    } else {
        None
    }
}

fn word_at(r: &[u8], i: usize) -> (w: u16)
    requires
        i + 1 < r@.len(),
    ensures
        w == le16(r@, i as int),
{
    r[i] as u16 + 256 * (r[i + 1] as u16)
}

/// The product version in the fixed file information of a version
/// resource, read from its bytes.
pub fn read_fixed_product_version(r: &[u8]) -> (v: Option<(u16, u16, u16)>)
    ensures
        v == fixed_product_version(r@),
{
    if r.len() < 92 {
        return None;
    }
    let length = word_at(r, 0);
    if length < 92 || length as usize > r.len() || word_at(r, 2) != 52 {
        return None;
    }
    let key: [u8; 32] = [
        0x56, 0, 0x53, 0, 0x5F, 0, 0x56, 0, 0x45, 0, 0x52, 0, 0x53, 0, 0x49, 0, 0x4F, 0, 0x4E, 0,
        0x5F, 0, 0x49, 0, 0x4E, 0, 0x46, 0, 0x4F, 0, 0, 0,
    ];
    assert(key@ =~= version_key());
    let mut i: usize = 0;
    while i < 32
        invariant
            i <= 32,
            r@.len() >= 92,
            key@ == version_key(),
            forall|j: int| 0 <= j < i ==> r@[6 + j] == key@[j],
        decreases 32 - i,
    {
        if r[6 + i] != key[i] {
            assert(r@.subrange(6, 38)[i as int] != version_key()[i as int]);
            return None;
        }
        i = i + 1;
    }
    assert(r@.subrange(6, 38) =~= version_key());
    if r[40] != 0xBD || r[41] != 0x04 || r[42] != 0xEF || r[43] != 0xFE {
        assert(r@.subrange(40, 44) != fixed_info_signature()) by {
            if r@.subrange(40, 44) == fixed_info_signature() {
                assert(r@.subrange(40, 44)[0] == r@[40]);
                assert(r@.subrange(40, 44)[1] == r@[41]);
                assert(r@.subrange(40, 44)[2] == r@[42]);
                assert(r@.subrange(40, 44)[3] == r@[43]);
            }
        }
        return None;
    }
    assert(r@.subrange(40, 44) =~= fixed_info_signature());
    Some((word_at(r, 58), word_at(r, 56), word_at(r, 62)))
}

/// How a read of the version resource is reported: the product version of
/// its fixed file information, `NoFixedFileInfo` when it has none, or the
/// reader's failure.
pub open spec fn version_read_result(read: Result<Seq<u8>, PeFindError>) -> Result<(u16, u16, u16), ParseError> {
    match read {
        Ok(bytes) => match fixed_product_version(bytes) {
            Some(v) => Ok(v),
            None => Err(ParseError::ParsePe { error: ParsePeError::PeError(PeFindError::NoFixedFileInfo) }),
        },
        Err(e) => Err(ParseError::ParsePe { error: ParsePeError::PeError(e) }),
    }
}

/// The view of a version-resource read.
pub open spec fn read_view(read: Result<Vec<u8>, PeFindError>) -> Result<Seq<u8>, PeFindError> {
    match read {
        Ok(b) => Ok(b@),
        Err(e) => Err(e),
    }
}

/// Reports the outcome of a version-resource read: the product version of
/// its fixed file information, or the parse error that carries the failure.
pub fn report_version_read(read: Result<Vec<u8>, PeFindError>) -> (r: Result<(u16, u16, u16), ParseError>)
    ensures
        r == version_read_result(read_view(read)),
{
    match read {
        Ok(bytes) => match read_fixed_product_version(bytes.as_slice()) {
            Some(v) => Ok(v),
            None => Err(ParseError::ParsePe { error: ParsePeError::PeError(PeFindError::NoFixedFileInfo) }),
        },
        Err(e) => Err(ParseError::ParsePe { error: ParsePeError::PeError(e) }),
    }
}

/// Whether a result is one that reporting some version-resource read gives.
pub open spec fn is_version_report(r: Result<(u16, u16, u16), ParseError>) -> bool {
    exists|read: Result<Seq<u8>, PeFindError>| r == version_read_result(read)
}

/// The product version of a 64-bit executable, given its bytes: whatever the
/// resource reader gives, reported by [`report_version_read`].
pub fn pe_version_64(image: &[u8]) -> (r: Result<(u16, u16, u16), ParseError>)
    ensures
        is_version_report(r),
{
    let read = pe64_version_resource(image);
    let ghost v = read_view(read);
    let r = report_version_read(read);
    assert(r == version_read_result(v));
    r
}

/// The product version of a 32-bit executable, given its bytes: whatever the
/// resource reader gives, reported by [`report_version_read`].
pub fn pe_version_32(image: &[u8]) -> (r: Result<(u16, u16, u16), ParseError>)
    ensures
        is_version_report(r),
{
    let read = pe32_version_resource(image);
    let ghost v = read_view(read);
    let r = report_version_read(read);
    assert(r == version_read_result(v));
    r
}

/// The Dark Souls II releases (32-bit) by product version.
pub open spec fn vanilla_version(v: (u16, u16, u16)) -> Option<DarkSouls2Version> {
    match v {
        (1, 0, 3) => Some(DarkSouls2Version::Vanilla1_0_3),
        (1, 0, 4) => Some(DarkSouls2Version::Vanilla1_0_4),
        (1, 0, 5) => Some(DarkSouls2Version::Vanilla1_0_5),
        (1, 0, 6) => Some(DarkSouls2Version::Vanilla1_0_5),
        (1, 0, 7) => Some(DarkSouls2Version::Vanilla1_0_7),
        (1, 0, 10) => Some(DarkSouls2Version::Vanilla1_0_10),
        (1, 0, 11) => Some(DarkSouls2Version::Vanilla1_0_11),
        (1, 0, 12) => Some(DarkSouls2Version::Vanilla1_0_12),
        _ => None,
    }
}

/// The Scholar of the First Sin releases (64-bit) by product version.
pub open spec fn scholar_version(v: (u16, u16, u16)) -> Option<DarkSouls2Version> {
    match v {
        (1, 0, 1) => Some(DarkSouls2Version::Scholar1_0_1),
        (1, 0, 2) => Some(DarkSouls2Version::Scholar1_0_2),
        (1, 0, 3) => Some(DarkSouls2Version::Scholar1_0_3),
        _ => None,
    }
}

/// The Elden Ring releases by product version.
pub open spec fn eldenring_version(v: (u16, u16, u16)) -> Option<EldenRingVersion> {
    match v {
        (1, 2, 0) => Some(EldenRingVersion::Version1_2_0),
        (1, 2, 1) => Some(EldenRingVersion::Version1_2_1),
        (1, 2, 2) => Some(EldenRingVersion::Version1_2_2),
        (1, 2, 3) => Some(EldenRingVersion::Version1_2_3),
        (1, 3, 0) => Some(EldenRingVersion::Version1_3_0),
        (1, 3, 1) => Some(EldenRingVersion::Version1_3_1),
        (1, 3, 2) => Some(EldenRingVersion::Version1_3_2),
        (1, 4, 0) => Some(EldenRingVersion::Version1_4_0),
        (1, 4, 1) => Some(EldenRingVersion::Version1_4_1),
        (1, 5, 0) => Some(EldenRingVersion::Version1_5_0),
        (1, 6, 0) => Some(EldenRingVersion::Version1_6_0),
        (1, 7, 0) => Some(EldenRingVersion::Version1_7_0),
        (1, 8, 0) => Some(EldenRingVersion::Version1_8_0),
        (1, 8, 1) => Some(EldenRingVersion::Version1_8_1),
        (1, 9, 0) => Some(EldenRingVersion::Version1_9_0),
        (1, 9, 1) => Some(EldenRingVersion::Version1_9_1),
        (2, 0, 0) => Some(EldenRingVersion::Version2_0_0),
        (2, 0, 1) => Some(EldenRingVersion::Version2_0_1),
        (2, 2, 0) => Some(EldenRingVersion::Version2_2_0),
        (2, 2, 3) => Some(EldenRingVersion::Version2_2_3),
        (2, 3, 0) => Some(EldenRingVersion::Version2_3_0),
        (2, 4, 0) => Some(EldenRingVersion::Version2_4_0),
        (2, 5, 0) => Some(EldenRingVersion::Version2_5_0),
        (2, 6, 0) => Some(EldenRingVersion::Version2_6_0),
        (2, 6, 1) => Some(EldenRingVersion::Version2_6_1),
        (2, 6, 2) => Some(EldenRingVersion::Version2_6_2),
        _ => None,
    }
}

/// A version table lookup as reported: the release, or `MatchProductVersion`.
pub open spec fn matched<T>(found: Option<T>, v: (u16, u16, u16)) -> Result<T, ParseError> {
    match found {
        Some(x) => Ok(x),
        None => Err(ParseError::MatchProductVersion { product_version: v }),
    }
}

/// The Dark Souls II release (32-bit) of a product version.
pub fn match_vanilla(version: (u16, u16, u16)) -> (r: Result<DarkSouls2Version, ParseError>)
    ensures
        r == matched(vanilla_version(version), version),
        r matches Ok(d) ==> ds2_release_numbers(d) == Some(version) || version == (1u16, 0u16, 6u16),
{
    let (major, minor, patch) = version;
    Ok(match (major, minor, patch) {
        (1, 0, 3) => DarkSouls2Version::Vanilla1_0_3,
        (1, 0, 4) => DarkSouls2Version::Vanilla1_0_4,
        (1, 0, 5) => DarkSouls2Version::Vanilla1_0_5,
        (1, 0, 6) => DarkSouls2Version::Vanilla1_0_5,
        (1, 0, 7) => DarkSouls2Version::Vanilla1_0_7,
        (1, 0, 10) => DarkSouls2Version::Vanilla1_0_10,
        (1, 0, 11) => DarkSouls2Version::Vanilla1_0_11,
        (1, 0, 12) => DarkSouls2Version::Vanilla1_0_12,
        _ => {
            return Err(ParseError::MatchProductVersion { product_version: (major, minor, patch) });
        },
    })
}

/// The Scholar of the First Sin release (64-bit) of a product version.
pub fn match_scholar(version: (u16, u16, u16)) -> (r: Result<DarkSouls2Version, ParseError>)
    ensures
        r == matched(scholar_version(version), version),
        r matches Ok(d) ==> ds2_release_numbers(d) == Some(version),
{
    let (major, minor, patch) = version;
    Ok(match (major, minor, patch) {
        (1, 0, 1) => DarkSouls2Version::Scholar1_0_1,
        (1, 0, 2) => DarkSouls2Version::Scholar1_0_2,
        (1, 0, 3) => DarkSouls2Version::Scholar1_0_3,
        _ => {
            return Err(ParseError::MatchProductVersion { product_version: (major, minor, patch) });
        },
    })
}

/// The 32-bit Dark Souls II table names each release by its own numbers, but
/// for product version 1.0.6, which is read as release 1.0.5: a recognised
/// product version gives the original-edition release named after it, and
/// every original-edition release is recognised from its numbers.
pub proof fn lemma_vanilla_version_named(v: (u16, u16, u16), d: DarkSouls2Version)
    ensures
        v != (1u16, 0u16, 6u16) ==> (vanilla_version(v) == Some(d) <==> (ds2_release_numbers(d) == Some(v)
            && !d.spec_is_scholar())),
        vanilla_version((1, 0, 6)) == Some(DarkSouls2Version::Vanilla1_0_5),
{
}

/// The 64-bit Dark Souls II table names each release by its own numbers: a
/// recognised product version gives the Scholar of the First Sin release
/// named after it, and every such release is recognised from its numbers.
pub proof fn lemma_scholar_version_named(v: (u16, u16, u16), d: DarkSouls2Version)
    ensures
        scholar_version(v) == Some(d) <==> (ds2_release_numbers(d) == Some(v) && d.spec_is_scholar()),
{
}

/// The product-version table of Elden Ring names each release by its own
/// numbers: a product version that is recognised gives the release named
/// after exactly those numbers, and every named release is recognised from
/// its numbers. So no two product versions give the same release.
pub proof fn lemma_eldenring_version_named(v: (u16, u16, u16), e: EldenRingVersion)
    ensures
        eldenring_version(v) == Some(e) <==> er_release_numbers(e) == Some(v),
{
}

/// Two product versions that are recognised as the same Elden Ring release
/// are the same product version.
pub proof fn lemma_eldenring_version_injective(v: (u16, u16, u16), w: (u16, u16, u16))
    requires
        eldenring_version(v) is Some,
        eldenring_version(v) == eldenring_version(w),
    ensures
        v == w,
{
    lemma_eldenring_version_named(v, eldenring_version(v)->0);
    lemma_eldenring_version_named(w, eldenring_version(v)->0);
}

/// The Elden Ring release of a product version.
pub fn match_eldenring(version: (u16, u16, u16)) -> (r: Result<EldenRingVersion, ParseError>)
    ensures
        r == matched(eldenring_version(version), version),
        r matches Ok(e) ==> er_release_numbers(e) == Some(version),
{
    let (major, minor, patch) = version;
    Ok(match (major, minor, patch) {
        (1, 2, 0) => EldenRingVersion::Version1_2_0,
        (1, 2, 1) => EldenRingVersion::Version1_2_1,
        (1, 2, 2) => EldenRingVersion::Version1_2_2,
        (1, 2, 3) => EldenRingVersion::Version1_2_3,
        (1, 3, 0) => EldenRingVersion::Version1_3_0,
        (1, 3, 1) => EldenRingVersion::Version1_3_1,
        (1, 3, 2) => EldenRingVersion::Version1_3_2,
        (1, 4, 0) => EldenRingVersion::Version1_4_0,
        (1, 4, 1) => EldenRingVersion::Version1_4_1,
        (1, 5, 0) => EldenRingVersion::Version1_5_0,
        (1, 6, 0) => EldenRingVersion::Version1_6_0,
        (1, 7, 0) => EldenRingVersion::Version1_7_0,
        (1, 8, 0) => EldenRingVersion::Version1_8_0,
        (1, 8, 1) => EldenRingVersion::Version1_8_1,
        (1, 9, 0) => EldenRingVersion::Version1_9_0,
        (1, 9, 1) => EldenRingVersion::Version1_9_1,
        (2, 0, 0) => EldenRingVersion::Version2_0_0,
        (2, 0, 1) => EldenRingVersion::Version2_0_1,
        (2, 2, 0) => EldenRingVersion::Version2_2_0,
        (2, 2, 3) => EldenRingVersion::Version2_2_3,
        (2, 3, 0) => EldenRingVersion::Version2_3_0,
        (2, 4, 0) => EldenRingVersion::Version2_4_0,
        (2, 5, 0) => EldenRingVersion::Version2_5_0,
        (2, 6, 0) => EldenRingVersion::Version2_6_0,
        (2, 6, 1) => EldenRingVersion::Version2_6_1,
        (2, 6, 2) => EldenRingVersion::Version2_6_2,
        _ => {
            return Err(ParseError::MatchProductVersion { product_version: (major, minor, patch) });
        },
    })
}

/// The read failed because the image has the other word size.
pub open spec fn is_pe_magic(e: ParseError) -> bool {
    e matches ParseError::ParsePe { error: ParsePeError::PeError(PeFindError::PeMagic) }
}

fn is_pe_magic_error(e: &ParseError) -> (r: bool)
    ensures
        r == is_pe_magic(*e),
{
    match e {
        ParseError::ParsePe { error: ParsePeError::PeError(PeFindError::PeMagic) } => true,
        _ => false,
    }
}

/// The word size of an executable: 32-bit exactly when the 64-bit read failed
/// with `PeMagic`.
pub open spec fn file_address_size(pe64: Result<(u16, u16, u16), ParseError>) -> AddressSize {
    match pe64 {
        Err(e) => if is_pe_magic(e) {
            AddressSize::Bits32
        } else {
            AddressSize::Bits64
        },
        Ok(_) => AddressSize::Bits64,
    }
}

/// The product version used for matching (`(0, 0, 0)` when none was read),
/// and the read errors that are kept.
pub open spec fn file_version_info(
    pe64: Result<(u16, u16, u16), ParseError>,
    pe32: Result<(u16, u16, u16), ParseError>,
) -> ((u16, u16, u16), Seq<ParseError>) {
    match pe64 {
        Ok(v) => (v, Seq::empty()),
        Err(e) => if is_pe_magic(e) {
            match pe32 {
                Ok(v) => (v, Seq::empty()),
                Err(e2) => ((0, 0, 0), seq![e2]),
            }
        } else {
            ((0, 0, 0), seq![e])
        },
    }
}

/// The release of a game with the given word size and product version, and
/// the error that the lookup adds.
pub open spec fn file_game_version(game: Game, size: AddressSize, v: (u16, u16, u16)) -> (GameVersion, Seq<ParseError>) {
    let miss = seq![ParseError::MatchProductVersion { product_version: v }];
    match game {
        Game::DarkSouls2 => match size {
            AddressSize::Bits32 => match vanilla_version(v) {
                Some(d) => (GameVersion::DarkSouls2(d), Seq::empty()),
                None => (GameVersion::DarkSouls2(DarkSouls2Version::VanillaUnknown), miss),
            },
            AddressSize::Bits64 => match scholar_version(v) {
                Some(d) => (GameVersion::DarkSouls2(d), Seq::empty()),
                None => (GameVersion::DarkSouls2(DarkSouls2Version::ScholarUnknown), miss),
            },
        },
        Game::EldenRing => match eldenring_version(v) {
            Some(e) => (GameVersion::EldenRing(e), Seq::empty()),
            None => (GameVersion::EldenRing(EldenRingVersion::VersionUnknown), miss),
        },
    }
}

/// The parse state of a list of collected errors.
pub open spec fn state_errors(errors: Seq<ParseError>) -> Option<Seq<ParseError>> {
    if errors.len() == 0 {
        None
    } else {
        Some(errors)
    }
}

/// Works out the word size and release of a game executable from the two
/// product-version reads (the 32-bit one is used only when the 64-bit one
/// failed with `PeMagic`), adding any errors to those already collected.
pub fn parse_file_for_version_and_address_size(
    game: &Game,
    pe64: Result<(u16, u16, u16), ParseError>,
    pe32: Result<(u16, u16, u16), ParseError>,
    parse_errors: Vec<ParseError>,
) -> (r: (AddressSize, GameVersion, ParseState))
    ensures
        ({
            let size = file_address_size(pe64);
            let (v, read_errors) = file_version_info(pe64, pe32);
            let (gv, match_errors) = file_game_version(*game, size, v);
            &&& r.0 == size
            &&& r.1 == gv
            &&& r.2.errors() == state_errors(parse_errors@ + read_errors + match_errors)
        }),
{
    let mut errors = parse_errors;
    let ghost initial = errors@;
    let mut address_size = AddressSize::Bits64;
    let version_info: (u16, u16, u16) = match pe64 {
        Ok(v) => v,
        Err(e) => {
            if is_pe_magic_error(&e) {
                address_size = AddressSize::Bits32;
                match pe32 {
                    Ok(v) => v,
                    Err(e2) => {
                        errors.push(e2);
                        (0, 0, 0)
                    },
                }
            } else {
                errors.push(e);
                (0, 0, 0)
            }
        },
    };
    let ghost read_errors = file_version_info(pe64, pe32).1;
    assert(errors@ =~= initial + read_errors);
    let game_version = match game {
        Game::DarkSouls2 => {
            let version = match address_size {
                AddressSize::Bits32 => match match_vanilla(version_info) {
                    Ok(v) => v,
                    Err(err) => {
                        errors.push(err);
                        DarkSouls2Version::VanillaUnknown
                    },
                },
                AddressSize::Bits64 => match match_scholar(version_info) {
                    Ok(v) => v,
                    Err(err) => {
                        errors.push(err);
                        DarkSouls2Version::ScholarUnknown
                    },
                },
            };
            GameVersion::DarkSouls2(version)
        },
        Game::EldenRing => {
            let version = match match_eldenring(version_info) {
                Ok(v) => v,
                Err(err) => {
                    errors.push(err);
                    EldenRingVersion::VersionUnknown
                },
            };
            GameVersion::EldenRing(version)
        },
    };
    let ghost match_errors = file_game_version(*game, address_size, version_info).1;
    assert(errors@ =~= initial + read_errors + match_errors);
    let parse_state = if errors.len() == 0 {
        ParseState::Valid
    } else {
        ParseState::Invalid(errors)
    };
    (address_size, game_version, parse_state)
}

/// `a` and `b` hold the same characters.
pub fn str_equals(a: &str, b: &str) -> (r: bool)
    ensures
        r == (a@ == b@),
{
    let n = a.unicode_len();
    if n != b.unicode_len() {
        return false;
    }
    let mut i: usize = 0;
    while i < n
        invariant
            i <= n,
            n == a@.len(),
            n == b@.len(),
            forall|j: int| 0 <= j < i ==> a@[j] == b@[j],
        decreases n - i,
    {
        if a.get_char(i) != b.get_char(i) {
            return false;
        }
        i = i + 1;
    }
    assert(a@ =~= b@);
    true
}

/// The game that a process name belongs to, among the names that are
/// attached to.
pub open spec fn comm_game(name: Seq<char>) -> Option<Game> {
    if name == "eldenring.exe"@ {
        Some(Game::EldenRing)
    } else if name == "start_protected"@ {
        Some(Game::EldenRing)
    } else if name == "start_protected_game.exe"@ {
        Some(Game::EldenRing)
    } else if name == "DarkSoulsII.exe"@ {
        Some(Game::DarkSouls2)
    } else {
        None
    }
}

/// The process name that the kernel keeps: at most the first 15
/// characters.
pub open spec fn kernel_comm(name: Seq<char>) -> Seq<char> {
    if name.len() > 15 {
        name.take(15)
    } else {
        name
    }
}

/// The kernel keeps the first 15 characters of a process name: a name that
/// belongs to a game, cut as the kernel cuts it, belongs to the same game.
pub proof fn lemma_comm_game_truncated(name: Seq<char>)
    requires
        comm_game(name) is Some,
    ensures
        comm_game(kernel_comm(name)) == comm_game(name),
{
    reveal_strlit("eldenring.exe");
    reveal_strlit("start_protected");
    reveal_strlit("start_protected_game.exe");
    reveal_strlit("DarkSoulsII.exe");
    if name.len() > 15 {
        assert(name == "start_protected_game.exe"@);
        assert(name.take(15) =~= "start_protected"@);
    }
}

/// The process of a game's executable belongs to that game: the file name
/// of each game's executable is a process name of that game.
pub proof fn lemma_comm_game_of_executable(g: Game)
    ensures
        comm_game(crate::attached::proc_text::exe_name(g).map_values(|b: u8| b as char)) == Some(g),
{
    reveal_strlit("eldenring.exe");
    reveal_strlit("start_protected");
    reveal_strlit("start_protected_game.exe");
    reveal_strlit("DarkSoulsII.exe");
    let n = crate::attached::proc_text::exe_name(g).map_values(|b: u8| b as char);
    match g {
        Game::EldenRing => {
            assert(n =~= "eldenring.exe"@);
        },
        Game::DarkSouls2 => {
            assert(n =~= "DarkSoulsII.exe"@);
            assert(n.len() != "eldenring.exe"@.len());
            assert(n.len() != "start_protected_game.exe"@.len());
            assert(n[0] != "start_protected"@[0]);
        },
    }
}

/// The game of a process name, if it is one of the names that are attached
/// to.
pub fn valid_comm_game(name: &str) -> (r: Option<Game>)
    ensures
        r == comm_game(name@),
{
    if str_equals(name, "eldenring.exe") {
        Some(Game::EldenRing)
    } else if str_equals(name, "start_protected") {
        Some(Game::EldenRing)
    } else if str_equals(name, "start_protected_game.exe") {
        Some(Game::EldenRing)
    } else if str_equals(name, "DarkSoulsII.exe") {
        Some(Game::DarkSouls2)
    } else {
        None
    }
}

} // verus!
