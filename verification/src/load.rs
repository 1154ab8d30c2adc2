//! Parsing of the `TSPLAT` byte stream into typed splat arrays.
//!
//! A well-formed stream is a header line whose trimmed content is the magic
//! word `TSPLAT`, then a little-endian 32-bit triangle count `n`, then exactly
//! `n` fixed-width records of each kind:
//!   * triangle positions: 3 corners of 3 single-precision floats, 36 bytes,
//!   * alpha/spread pairs: 2 half-precision floats, 4 bytes,
//!   * color terms: 3 half-precision floats, 6 bytes, padded on output with a
//!     fourth zero component to a texture-storable layout.
//! One triangle therefore occupies 36 + 4 + 6 = 46 payload bytes.
//!
//! Float values are never interpreted here: every field is carried as its raw
//! IEEE-754 bit pattern, so the whole format can be stated and checked over
//! plain integers. Anything shorter than the declared size, or with a wrong
//! header, is rejected as `InvalidFormat`; trailing bytes after the declared
//! payload are ignored, as a streaming reader stops at the declared size.

use vstd::bytes::{spec_u16_from_le_bytes, spec_u32_from_le_bytes, u16_from_le_bytes,
    u32_from_le_bytes};
use vstd::prelude::*;
use vstd::slice::slice_subrange;

verus! {

/// One corner of a triangle: x, y, z as single-precision bit patterns.
#[derive(Clone, Copy, Debug, PartialEq, Eq, Structural)]
pub struct Pos3 {
    pub x: u32,
    pub y: u32,
    pub z: u32,
}

/// The three corners of one splat triangle.
#[derive(Clone, Copy, Debug, PartialEq, Eq, Structural)]
pub struct TriPositions {
    pub p0: Pos3,
    pub p1: Pos3,
    pub p2: Pos3,
}

/// Per-triangle alpha and spread, as half-precision bit patterns.
#[derive(Clone, Copy, Debug, PartialEq, Eq, Structural)]
pub struct AlphaSpread {
    pub alpha: u16,
    pub spread: u16,
}

/// Per-triangle color term: three half-precision coefficients and a reserved
/// fourth component, zero on every loaded record.
#[derive(Clone, Copy, Debug, PartialEq, Eq, Structural)]
pub struct ColorTerm {
    pub c0: u16,
    pub c1: u16,
    pub c2: u16,
    pub c3: u16,
}

/// The loaded splat set: index-aligned arrays of positions, alpha/spread
/// pairs and color terms, one entry of each per triangle.
#[derive(Debug, PartialEq, Eq)]
pub struct TSplat {
    pub points: Vec<TriPositions>,
    pub alpha_sigma: Vec<AlphaSpread>,
    pub sh: Vec<ColorTerm>,
}

impl TSplat {
    /// The three arrays are index-aligned: one record of each kind per
    /// triangle, so the flat position count is three times the attribute
    /// count.
    pub open spec fn wf(&self) -> bool {
        &&& self.alpha_sigma@.len() == self.points@.len()
        &&& self.sh@.len() == self.points@.len()
    }

    pub open spec fn spec_num_tris(&self) -> nat {
        self.points@.len()
    }

    /// Number of individual corner positions held; always three per triangle.
    pub open spec fn spec_num_positions(&self) -> nat {
        3 * self.points@.len()
    }

    pub fn num_tris(&self) -> (n: usize)
        ensures
            n == self.spec_num_tris(),
    {
        self.points.len()
    }
}

/// Loading failures: the stream is not a well-formed `TSPLAT` payload.
#[derive(Clone, Copy, Debug, PartialEq, Eq, Structural)]
pub enum LoadError {
    InvalidFormat,
}

impl LoadError {
    /// The user-visible description of the failure.
    pub fn message(&self) -> (m: &'static str)
        ensures
            m@ == "invalid model file"@,
    {
        "invalid model file"
    }
}

/// The bytes a text trim removes: space and the ASCII control whitespace
/// range (tab through carriage return).
pub open spec fn ascii_whitespace(b: u8) -> bool {
    b == 32 || (9 <= b && b <= 13)
}

/// Length of the first line of `b`: the number of bytes before the first
/// line feed, or all of `b` when it holds none.
pub open spec fn line_len(b: Seq<u8>) -> int
    decreases b.len(),
{
    if b.len() == 0 || b.first() == 10 {
        0
    } else {
        1 + line_len(b.drop_first())
    }
}

pub open spec fn trim_front(s: Seq<u8>) -> Seq<u8>
    decreases s.len(),
{
    if s.len() > 0 && ascii_whitespace(s.first()) {
        trim_front(s.drop_first())
    } else {
        s
    }
}

pub open spec fn trim_back(s: Seq<u8>) -> Seq<u8>
    decreases s.len(),
{
    if s.len() > 0 && ascii_whitespace(s.last()) {
        trim_back(s.drop_last())
    } else {
        s
    }
}

/// `s` with leading and trailing ASCII whitespace removed.
pub open spec fn trimmed(s: Seq<u8>) -> Seq<u8> {
    trim_back(trim_front(s))
}

/// The magic word `TSPLAT` as bytes.
pub open spec fn magic() -> Seq<u8> {
    seq![84u8, 83u8, 80u8, 76u8, 65u8, 84u8]
}

/// Index of the first byte after the header line: past its line feed, or the
/// end of the stream when no line feed exists.
pub open spec fn body_start(b: Seq<u8>) -> int {
    if line_len(b) == b.len() {
        b.len() as int
    } else {
        line_len(b) + 1
    }
}

/// The header line, trimmed, is exactly the magic word.
pub open spec fn header_ok(b: Seq<u8>) -> bool {
    trimmed(b.take(line_len(b))) == magic()
}

/// The stream still holds the 4 count bytes after the header line.
pub open spec fn has_count(b: Seq<u8>) -> bool {
    b.len() - body_start(b) >= 4
}

/// The declared triangle count: little-endian 32 bits after the header.
pub open spec fn declared_tris(b: Seq<u8>) -> u32 {
    spec_u32_from_le_bytes(b.subrange(body_start(b), body_start(b) + 4))
}

/// Index of the first payload byte, after the count.
pub open spec fn payload_start(b: Seq<u8>) -> int {
    body_start(b) + 4
}

/// The payload: every byte after the count.
pub open spec fn payload(b: Seq<u8>) -> Seq<u8> {
    b.subrange(payload_start(b), b.len() as int)
}

/// A stream is valid exactly when the header matches, the count is present,
/// and the payload holds at least the declared 46 bytes per triangle.
pub open spec fn valid_stream(b: Seq<u8>) -> bool {
    &&& header_ok(b)
    &&& has_count(b)
    &&& b.len() - payload_start(b) >= 46 * declared_tris(b)
}

pub open spec fn u32_at(p: Seq<u8>, off: int) -> u32 {
    spec_u32_from_le_bytes(p.subrange(off, off + 4))
}

pub open spec fn u16_at(p: Seq<u8>, off: int) -> u16 {
    spec_u16_from_le_bytes(p.subrange(off, off + 2))
}

pub open spec fn pos_at(p: Seq<u8>, off: int) -> Pos3 {
    Pos3 { x: u32_at(p, off), y: u32_at(p, off + 4), z: u32_at(p, off + 8) }
}

/// Triangle `i` of the payload: three corners at 36 bytes per triangle.
pub open spec fn tri_at(p: Seq<u8>, i: int) -> TriPositions {
    TriPositions {
        p0: pos_at(p, 36 * i),
        p1: pos_at(p, 36 * i + 12),
        p2: pos_at(p, 36 * i + 24),
    }
}

/// Alpha/spread record `i`, in the region after the `n` triangle records.
pub open spec fn alpha_at(p: Seq<u8>, n: int, i: int) -> AlphaSpread {
    AlphaSpread { alpha: u16_at(p, 36 * n + 4 * i), spread: u16_at(p, 36 * n + 4 * i + 2) }
}

/// Color record `i`, in the region after the triangle and alpha regions,
/// padded with a zero fourth component.
pub open spec fn color_at(p: Seq<u8>, n: int, i: int) -> ColorTerm {
    ColorTerm {
        c0: u16_at(p, 40 * n + 6 * i),
        c1: u16_at(p, 40 * n + 6 * i + 2),
        c2: u16_at(p, 40 * n + 6 * i + 4),
        c3: 0,
    }
}

/// `t` holds exactly the records of the valid stream `b`, in stream order.
pub open spec fn parsed_ok(b: Seq<u8>, t: TSplat) -> bool {
    let n = declared_tris(b) as int;
    let p = payload(b);
    &&& t.points@.len() == n
    &&& t.alpha_sigma@.len() == n
    &&& t.sh@.len() == n
    &&& forall|i: int| 0 <= i < n ==> t.points@[i] == tri_at(p, i)
    &&& forall|i: int| 0 <= i < n ==> t.alpha_sigma@[i] == alpha_at(p, n, i)
    &&& forall|i: int| 0 <= i < n ==> t.sh@[i] == color_at(p, n, i)
}

proof fn lemma_line_len_at(b: Seq<u8>, i: int)
    requires
        0 <= i <= b.len(),
        forall|k: int| 0 <= k < i ==> b[k] != 10,
        i == b.len() || b[i] == 10,
    ensures
        line_len(b) == i,
    decreases i,
{
    if i == 0 {
    } else {
        assert(b[0] != 10);
        assert forall|k: int| 0 <= k < i - 1 implies b.drop_first()[k] != 10 by {
            assert(b.drop_first()[k] == b[k + 1]);
        }
        lemma_line_len_at(b.drop_first(), i - 1);
    }
}

proof fn lemma_trim_front_at(s: Seq<u8>, l: int)
    requires
        0 <= l <= s.len(),
        forall|k: int| 0 <= k < l ==> ascii_whitespace(s[k]),
        l == s.len() || !ascii_whitespace(s[l]),
    ensures
        trim_front(s) == s.skip(l),
    decreases l,
{
    if l == 0 {
        assert(s.skip(0) =~= s);
    } else {
        assert(ascii_whitespace(s[0]));
        assert forall|k: int| 0 <= k < l - 1 implies ascii_whitespace(s.drop_first()[k]) by {
            assert(s.drop_first()[k] == s[k + 1]);
        }
        lemma_trim_front_at(s.drop_first(), l - 1);
        assert(s.drop_first().skip(l - 1) =~= s.skip(l));
    }
}

proof fn lemma_trim_back_at(s: Seq<u8>, r: int)
    requires
        0 <= r <= s.len(),
        forall|k: int| r <= k < s.len() ==> ascii_whitespace(s[k]),
        r == 0 || !ascii_whitespace(s[r - 1]),
    ensures
        trim_back(s) == s.take(r),
    decreases s.len(),
{
    if r == s.len() {
        assert(s.take(r) =~= s);
    } else {
        assert(ascii_whitespace(s.last()));
        assert forall|k: int| r <= k < s.len() - 1 implies ascii_whitespace(s.drop_last()[k]) by {
            assert(s.drop_last()[k] == s[k]);
        }
        lemma_trim_back_at(s.drop_last(), r);
        assert(s.drop_last().take(r) =~= s.take(r));
    }
}

proof fn lemma_payload_subrange(b: Seq<u8>, x: int, y: int)
    requires
        0 <= x <= y,
        0 <= payload_start(b),
        payload_start(b) + y <= b.len(),
    ensures
        payload(b).subrange(x, y) == b.subrange(payload_start(b) + x, payload_start(b) + y),
{
    assert(payload(b).subrange(x, y) =~= b.subrange(payload_start(b) + x, payload_start(b) + y));
}

fn is_ascii_whitespace(b: u8) -> (r: bool)
    ensures
        r == ascii_whitespace(b),
{
    b == 32 || (9 <= b && b <= 13)
}

fn read_u32_at(data: &Vec<u8>, off: usize) -> (x: u32)
    requires
        off + 4 <= data@.len(),
    ensures
        x == u32_at(data@, off as int),
{
    let n = data.len();
    proof {
        assert(off + 4 <= n);
    }
    let s = slice_subrange(data.as_slice(), off, off + 4);
    u32_from_le_bytes(s)
}

fn read_u16_at(data: &Vec<u8>, off: usize) -> (x: u16)
    requires
        off + 2 <= data@.len(),
    ensures
        x == u16_at(data@, off as int),
{
    let n = data.len();
    proof {
        assert(off + 2 <= n);
    }
    let s = slice_subrange(data.as_slice(), off, off + 2);
    u16_from_le_bytes(s)
}

/// Parse a complete `TSPLAT` stream into its typed, index-aligned arrays.
///
/// Succeeds exactly on valid streams; every malformed or short stream is
/// rejected as `InvalidFormat` with no partial result.
pub fn parse_tsplat(data: &Vec<u8>) -> (r: Result<TSplat, LoadError>)
    ensures
        r is Ok <==> valid_stream(data@),
        (r matches Ok(t) ==> parsed_ok(data@, t)),
        (r matches Ok(t) ==> t.wf()),
        (r matches Ok(t) ==> t.spec_num_positions() == 3 * declared_tris(data@)),
        (r matches Err(e) ==> e == LoadError::InvalidFormat),
{
    let ghost b = data@;
    let n_bytes = data.len();

    // Find the end of the header line.
    let mut e: usize = 0;
    while e < n_bytes && data[e] != 10
        invariant
            0 <= e <= n_bytes,
            n_bytes == b.len(),
            data@ == b,
            forall|k: int| 0 <= k < e ==> b[k] != 10,
        decreases n_bytes - e,
    {
        e += 1;
    }
    proof {
        lemma_line_len_at(b, e as int);
    }
    let ghost line = b.take(e as int);

    // Trim the header line from both ends.
    let mut l: usize = 0;
    while l < e && is_ascii_whitespace(data[l])
        invariant
            0 <= l <= e <= n_bytes,
            n_bytes == b.len(),
            data@ == b,
            forall|k: int| 0 <= k < l ==> ascii_whitespace(b[k]),
        decreases e - l,
    {
        l += 1;
    }
    let mut u: usize = e;
    while u > l && is_ascii_whitespace(data[u - 1])
        invariant
            l <= u <= e <= n_bytes,
            n_bytes == b.len(),
            data@ == b,
            forall|k: int| u <= k < e ==> ascii_whitespace(b[k]),
        decreases u,
    {
        u -= 1;
    }
    proof {
        assert forall|k: int| 0 <= k < l implies ascii_whitespace(line[k]) by {}
        lemma_trim_front_at(line, l as int);
        let rest = line.skip(l as int);
        assert forall|k: int| u - l <= k < rest.len() implies ascii_whitespace(rest[k]) by {
            assert(rest[k] == line[l + k]);
        }
        if u > l {
            assert(rest[u - l - 1] == line[u - 1 as int]);
        }
        lemma_trim_back_at(rest, u as int - l as int);
        assert(line.skip(l as int).take(u as int - l as int) =~= b.subrange(l as int, u as int));
        assert(trimmed(line) == b.subrange(l as int, u as int));
    }

    // The trimmed header must be the six magic bytes.
    if u - l != 6 {
        proof {
            assert(trimmed(line).len() != magic().len());
        }
        return Err(LoadError::InvalidFormat);
    }
    if data[l] != 84 || data[l + 1] != 83 || data[l + 2] != 80 || data[l + 3] != 76
        || data[l + 4] != 65 || data[l + 5] != 84 {
        proof {
            let t = b.subrange(l as int, u as int);
            if t == magic() {
                assert(t[0] == 84 && t[1] == 83 && t[2] == 80 && t[3] == 76 && t[4] == 65
                    && t[5] == 84);
                assert(b[l as int] == 84 && b[l + 1 as int] == 83 && b[l + 2 as int] == 80
                    && b[l + 3 as int] == 76 && b[l + 4 as int] == 65 && b[l + 5 as int] == 84);
            }
        }
        return Err(LoadError::InvalidFormat);
    }
    proof {
        assert(b.subrange(l as int, u as int) =~= magic());
        assert(header_ok(b));
    }

    // The little-endian triangle count follows the header line.
    let start = if e == n_bytes {
        e
    } else {
        e + 1
    };
    proof {
        assert(start as int == body_start(b));
    }
    if n_bytes - start < 4 {
        return Err(LoadError::InvalidFormat);
    }
    let n = read_u32_at(data, start);
    proof {
        assert(n == declared_tris(b));
    }

    // The payload must hold 46 bytes per declared triangle.
    let pstart = start + 4;
    let payload_len = n_bytes - pstart;
    if (payload_len as u64) < 46 * (n as u64) {
        return Err(LoadError::InvalidFormat);
    }
    let ghost p = payload(b);
    proof {
        assert(p.len() == payload_len);
        assert(46 * (n as int) <= payload_len as int);
    }
    let n_us = n as usize;

    let mut points: Vec<TriPositions> = Vec::new();
    let mut i: usize = 0;
    while i < n_us
        invariant
            0 <= i <= n_us,
            n_us == declared_tris(b),
            data@ == b,
            pstart as int == payload_start(b),
            pstart + payload_len == n_bytes == b.len(),
            p == payload(b),
            p.len() == payload_len,
            46 * (n_us as int) <= payload_len as int,
            points@.len() == i,
            forall|k: int| 0 <= k < i ==> points@[k] == tri_at(p, k),
        decreases n_us - i,
    {
        let base = pstart + 36 * i;
        proof {
            assert(36 * (i as int) + 36 <= 46 * (n_us as int));
        }
        let tri = TriPositions {
            p0: Pos3 {
                x: read_u32_at(data, base),
                y: read_u32_at(data, base + 4),
                z: read_u32_at(data, base + 8),
            },
            p1: Pos3 {
                x: read_u32_at(data, base + 12),
                y: read_u32_at(data, base + 16),
                z: read_u32_at(data, base + 20),
            },
            p2: Pos3 {
                x: read_u32_at(data, base + 24),
                y: read_u32_at(data, base + 28),
                z: read_u32_at(data, base + 32),
            },
        };
        proof {
            let ii = i as int;
            lemma_payload_subrange(b, 36 * ii, 36 * ii + 4);
            lemma_payload_subrange(b, 36 * ii + 4, 36 * ii + 8);
            lemma_payload_subrange(b, 36 * ii + 8, 36 * ii + 12);
            lemma_payload_subrange(b, 36 * ii + 12, 36 * ii + 16);
            lemma_payload_subrange(b, 36 * ii + 16, 36 * ii + 20);
            lemma_payload_subrange(b, 36 * ii + 20, 36 * ii + 24);
            lemma_payload_subrange(b, 36 * ii + 24, 36 * ii + 28);
            lemma_payload_subrange(b, 36 * ii + 28, 36 * ii + 32);
            lemma_payload_subrange(b, 36 * ii + 32, 36 * ii + 36);
            assert(tri == tri_at(p, ii));
        }
        points.push(tri);
        i += 1;
    }

    let abase0 = pstart + 36 * n_us;
    let mut alpha_sigma: Vec<AlphaSpread> = Vec::new();
    let mut i: usize = 0;
    while i < n_us
        invariant
            0 <= i <= n_us,
            n_us == declared_tris(b),
            data@ == b,
            pstart as int == payload_start(b),
            pstart + payload_len == n_bytes == b.len(),
            p == payload(b),
            p.len() == payload_len,
            46 * (n_us as int) <= payload_len as int,
            abase0 == pstart + 36 * n_us,
            alpha_sigma@.len() == i,
            forall|k: int| 0 <= k < i ==> alpha_sigma@[k] == alpha_at(p, n_us as int, k),
        decreases n_us - i,
    {
        let base = abase0 + 4 * i;
        proof {
            assert(36 * (n_us as int) + 4 * (i as int) + 4 <= 46 * (n_us as int));
        }
        let rec = AlphaSpread {
            alpha: read_u16_at(data, base),
            spread: read_u16_at(data, base + 2),
        };
        proof {
            let off = 36 * (n_us as int) + 4 * (i as int);
            lemma_payload_subrange(b, off, off + 2);
            lemma_payload_subrange(b, off + 2, off + 4);
            assert(rec == alpha_at(p, n_us as int, i as int));
        }
        alpha_sigma.push(rec);
        i += 1;
    }

    let cbase0 = pstart + 40 * n_us;
    let mut sh: Vec<ColorTerm> = Vec::new();
    let mut i: usize = 0;
    while i < n_us
        invariant
            0 <= i <= n_us,
            n_us == declared_tris(b),
            data@ == b,
            pstart as int == payload_start(b),
            pstart + payload_len == n_bytes == b.len(),
            p == payload(b),
            p.len() == payload_len,
            46 * (n_us as int) <= payload_len as int,
            cbase0 == pstart + 40 * n_us,
            sh@.len() == i,
            forall|k: int| 0 <= k < i ==> sh@[k] == color_at(p, n_us as int, k),
        decreases n_us - i,
    {
        let base = cbase0 + 6 * i;
        proof {
            assert(40 * (n_us as int) + 6 * (i as int) + 6 <= 46 * (n_us as int));
        }
        let rec = ColorTerm {
            c0: read_u16_at(data, base),
            c1: read_u16_at(data, base + 2),
            c2: read_u16_at(data, base + 4),
            c3: 0,
        };
        proof {
            let off = 40 * (n_us as int) + 6 * (i as int);
            lemma_payload_subrange(b, off, off + 2);
            lemma_payload_subrange(b, off + 2, off + 4);
            lemma_payload_subrange(b, off + 4, off + 6);
            assert(rec == color_at(p, n_us as int, i as int));
        }
        sh.push(rec);
        i += 1;
    }

    Ok(TSplat { points, alpha_sigma, sh })
}

/// Exact byte count of the payload a stream declaring `num_tris` triangles
/// must still provide after its count field: the triangle, alpha/spread and
/// color regions together.
pub fn expected_payload_bytes(num_tris: u32) -> (n: u64)
    ensures
        n == 36 * num_tris + 4 * num_tris + 6 * num_tris,
        n == 46 * num_tris,
{
    46 * (num_tris as u64)
}

/// Fraction of the expected bytes already read, in thousandths; the caller
/// scales it into its progress display.
pub fn progress_permille(bytes_read: u64, expected_bytes: u64) -> (p: u64)
    requires
        1 <= expected_bytes,
        bytes_read <= expected_bytes,
        expected_bytes <= 0x0040_0000_0000_0000,
    ensures
        p == bytes_read * 1000 / (expected_bytes as int),
        p <= 1000,
{
    proof {
        assert(bytes_read * 1000 <= expected_bytes * 1000) by (nonlinear_arith)
            requires
                bytes_read <= expected_bytes,
        ;
        assert(bytes_read * 1000 / (expected_bytes as int) <= 1000) by (nonlinear_arith)
            requires
                1 <= expected_bytes,
                bytes_read * 1000 <= expected_bytes * 1000,
        ;
    }
    bytes_read * 1000 / expected_bytes
}

/// Progress is reported at a bounded rate: only when more than 20
/// milliseconds have passed since the last report.
pub fn should_report_progress(now_millis: u64, last_report_millis: u64) -> (r: bool)
    requires
        last_report_millis <= now_millis,
    ensures
        r <==> now_millis - last_report_millis > 20,
{
    now_millis - last_report_millis > 20
}

} // verus!
