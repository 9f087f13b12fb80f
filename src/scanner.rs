//! Signature scanner: finds the marker that precedes the track identifier in a
//! snapshot of the player's module and derives the identifier's address.
use vstd::prelude::*;

verus! {

/// One position of a byte pattern: a literal byte, or a byte that may be anything.
#[derive(Clone, Copy, Debug, PartialEq, Eq, Structural)]
pub enum PatternByte {
    Exact(u8),
    Any,
}

/// Bytes between the start of a signature match and the identifier field:
/// the four bytes `01 00 00 00` that precede the `spotify:` text. The layout
/// is a property of the player's build and may need recalibration.
pub const TRACK_FIELD_OFFSET: usize = 4;

/// Why no address could be derived from a module snapshot.
#[derive(Clone, Copy, Debug, PartialEq, Eq, Structural)]
pub enum ScanError {
    /// The signature does not occur in the snapshot.
    NotFound,
}

pub open spec fn byte_matches(p: PatternByte, b: u8) -> bool {
    match p {
        PatternByte::Exact(x) => x == b,
        PatternByte::Any => true,
    }
}

/// `pattern` matches `buf` starting at byte `i`.
pub open spec fn pattern_at(buf: Seq<u8>, pattern: Seq<PatternByte>, i: int) -> bool {
    0 <= i && i + pattern.len() <= buf.len() && forall|m: int|
        0 <= m < pattern.len() ==> byte_matches(#[trigger] pattern[m], buf[i + m])
}

/// `k` is the first offset at which `pattern` matches `buf`.
pub open spec fn first_match(buf: Seq<u8>, pattern: Seq<PatternByte>, k: int) -> bool {
    pattern_at(buf, pattern, k) && forall|j: int| 0 <= j < k ==> !pattern_at(buf, pattern, j)
}

/// The signature of the identifier field: `01 00 00 00` followed by the
/// ASCII text `spotify:`.
pub open spec fn track_signature_spec() -> Seq<PatternByte> {
    seq![
        PatternByte::Exact(0x01), PatternByte::Exact(0x00), PatternByte::Exact(0x00),
        PatternByte::Exact(0x00), PatternByte::Exact(0x73), PatternByte::Exact(0x70),
        PatternByte::Exact(0x6F), PatternByte::Exact(0x74), PatternByte::Exact(0x69),
        PatternByte::Exact(0x66), PatternByte::Exact(0x79), PatternByte::Exact(0x3A),
    ]
}

pub fn track_signature() -> (r: Vec<PatternByte>)
    ensures
        r@ == track_signature_spec(),
{
    let r = vec![
        PatternByte::Exact(0x01), PatternByte::Exact(0x00), PatternByte::Exact(0x00),
        PatternByte::Exact(0x00), PatternByte::Exact(0x73), PatternByte::Exact(0x70),
        PatternByte::Exact(0x6F), PatternByte::Exact(0x74), PatternByte::Exact(0x69),
        PatternByte::Exact(0x66), PatternByte::Exact(0x79), PatternByte::Exact(0x3A),
    ];
    assert(r@ =~= track_signature_spec());
    r
}

fn matches_here(buf: &[u8], pattern: &Vec<PatternByte>, i: usize) -> (r: bool)
    requires
        i + pattern@.len() <= buf@.len(),
    ensures
        r == pattern_at(buf@, pattern@, i as int),
{
    let n: usize = buf.len();
    let mut k: usize = 0;
    while k < pattern.len()
        invariant
            n == buf@.len(),
            i + pattern@.len() <= buf@.len(),
            k <= pattern@.len(),
            forall|m: int| 0 <= m < k ==> byte_matches(#[trigger] pattern@[m], buf@[i + m]),
        decreases pattern@.len() - k,
    {
        let ok = match pattern[k] {
            PatternByte::Exact(x) => x == buf[i + k],
            PatternByte::Any => true,
        };
        if !ok {
            return false;
        }
        k = k + 1;
    }
    true
}

/// Offset of the first match of `pattern` in `buf`, if there is one.
pub fn find_pattern(buf: &[u8], pattern: &Vec<PatternByte>) -> (r: Option<usize>)
    ensures
        match r {
            Some(k) => first_match(buf@, pattern@, k as int),
            None => forall|j: int| !pattern_at(buf@, pattern@, j),
        },
{
    if pattern.len() > buf.len() {
        return None;
    }
    let last: usize = buf.len() - pattern.len();
    let mut i: usize = 0;
    while i < last
        invariant
            last == buf@.len() - pattern@.len(),
            i <= last,
            forall|j: int| 0 <= j < i ==> !pattern_at(buf@, pattern@, j),
        decreases last - i,
    {
        if matches_here(buf, pattern, i) {
            return Some(i);
        }
        i = i + 1;
    }
    if matches_here(buf, pattern, last) {
        return Some(last);
    }
    assert forall|j: int| !pattern_at(buf@, pattern@, j) by {
        if 0 <= j && j + pattern@.len() <= buf@.len() {
            assert(j <= last);
        }
    }
    None
}

/// Address of the field `field_offset` bytes past the first match of `pattern`
/// in a snapshot of a module loaded at `module_base`.
pub fn scan_with(module_bytes: &[u8], module_base: usize, pattern: &Vec<PatternByte>, field_offset: usize) -> (r: Result<usize, ScanError>)
    requires
        module_base + module_bytes@.len() <= usize::MAX,
        field_offset <= pattern@.len(),
    ensures
        match r {
            Ok(addr) => exists|k: int|
                first_match(module_bytes@, pattern@, k) && addr == module_base + k + field_offset,
            Err(e) => e == ScanError::NotFound && forall|j: int| !pattern_at(module_bytes@, pattern@, j),
        },
{
    match find_pattern(module_bytes, pattern) {
        Some(k) => Ok(module_base + k + field_offset),
        None => Err(ScanError::NotFound),
    }
}

/// Address of the track identifier in a snapshot of the player's module loaded
/// at `module_base`: the first match of the track signature, moved past its
/// four-byte prefix.
pub fn scan(module_bytes: &[u8], module_base: usize) -> (r: Result<usize, ScanError>)
    requires
        module_base + module_bytes@.len() <= usize::MAX,
    ensures
        match r {
            Ok(addr) => exists|k: int|
                first_match(module_bytes@, track_signature_spec(), k) && addr == module_base + k
                    + TRACK_FIELD_OFFSET,
            Err(e) => e == ScanError::NotFound && forall|j: int|
                !pattern_at(module_bytes@, track_signature_spec(), j),
        },
{
    let pattern = track_signature();
    scan_with(module_bytes, module_base, &pattern, TRACK_FIELD_OFFSET)
}

} // verus!
