//! Export sizing and file naming.
//!
//! An export resizes the last rendered buffer to a user-entered size and
//! writes it under a fresh name.  The size boxes hold free text: a value
//! below 256 is read as inches and converted at 300 dots per inch, anything
//! else as a pixel count; when only one box parses, the other dimension is
//! derived from it by the source aspect ratio, and when neither parses the
//! source extent is kept.  The file name is `warp_<n>.png` with the smallest `n` not
//! already taken.  The writing itself is filesystem work done by the
//! surrounding application; this module decides the exact pixel extent and
//! the exact name.

use vstd::prelude::*;

verus! {

use crate::fixed::spec_parse_micros;
use crate::fixed::parse_micros;
use crate::fixed::spec_decimal_digits;
use crate::fixed::decimal_string;

/// Dots per inch assumed when a size below [`INCH_LIMIT_MICROS`] is read as
/// inches.
pub const PRINT_DPI: i64 = 300;

/// Sizes below 256 units are read as inches, larger ones as pixels.
pub const INCH_LIMIT_MICROS: i64 = 256_000_000;

/// The pixel count a parsed size names: below the inch limit it is scaled
/// by [`PRINT_DPI`] and rounded half up; otherwise it is truncated to whole
/// pixels.  The result is clamped to the `u32` range.
pub open spec fn spec_scaled_dimension(v: int) -> int {
    let px = if v < INCH_LIMIT_MICROS {
        (PRINT_DPI * v + 500_000) / 1_000_000
    } else {
        v / 1_000_000
    };
    if px < 0 {
        0
    } else if px > u32::MAX {
        u32::MAX as int
    } else {
        px
    }
}

/// The pixel count a parsed size (in millionths of a unit) names.
pub fn scaled_dimension(v: i64) -> (px: u32)
    requires
        -30_000_000_000_000_000 <= v <= 30_000_000_000_000_000,
    ensures
        px == spec_scaled_dimension(v as int),
{
    if v < INCH_LIMIT_MICROS {
        let num: i64 = PRINT_DPI * v + 500_000;
        if num < 0 {
            0
        } else {
            let px: i64 = num / 1_000_000;
            if px > 0xffff_ffff {
                u32::MAX
            } else {
                px as u32
            }
        }
    } else {
        let px: i64 = v / 1_000_000;
        if px > 0xffff_ffff {
            u32::MAX
        } else {
            px as u32
        }
    }
}

/// One export dimension derived from the other by the source aspect ratio:
/// `scaled` pixels on the source's `b` axis translate to
/// `scaled * src_a / src_b` pixels on its `a` axis, truncated and clamped
/// to the `u32` range.
pub open spec fn spec_derived_dimension(scaled: int, src_a: u32, src_b: u32) -> int {
    let d = scaled * src_a / (src_b as int);
    if d > u32::MAX {
        u32::MAX as int
    } else {
        d
    }
}

/// The export extent the two size boxes ask for, against a source raster of
/// extent `src_width x src_height`.
///
/// A box that parses is scaled by [`spec_scaled_dimension`].  When only one
/// box parses, the other dimension is derived from it by the source aspect
/// ratio ([`spec_derived_dimension`]); when neither parses, the source
/// extent is kept.
pub open spec fn spec_export_dimensions(
    width_text: Seq<char>,
    height_text: Seq<char>,
    src_width: u32,
    src_height: u32,
) -> (u32, u32) {
    match (spec_parse_micros(width_text), spec_parse_micros(height_text)) {
        (Option::Some(wv), Option::Some(hv)) => (
            ((spec_scaled_dimension(wv as int)) as u32),
            ((spec_scaled_dimension(hv as int)) as u32),
        ),
        (Option::Some(wv), Option::None) => {
            let w = spec_scaled_dimension(wv as int);
            ((w as u32), ((spec_derived_dimension(w, src_height, src_width)) as u32))
        },
        (Option::None, Option::Some(hv)) => {
            let h = spec_scaled_dimension(hv as int);
            (((spec_derived_dimension(h, src_width, src_height)) as u32), (h as u32))
        },
        (Option::None, Option::None) => (src_width, src_height),
    }
}

/// One export dimension derived from the other by the source aspect ratio.
fn derived_dimension(scaled: u32, src_a: u32, src_b: u32) -> (d: u32)
    requires
        src_b > 0,
    ensures
        d == spec_derived_dimension(scaled as int, src_a, src_b),
{
    proof {
        assert((scaled as int) * (src_a as int) <= 0xffff_fffe_0000_0001) by (nonlinear_arith)
            requires
                0 <= scaled <= 0xffff_ffff,
                0 <= src_a <= 0xffff_ffff,
        ;
    }
    let d: u64 = (scaled as u64) * (src_a as u64) / (src_b as u64);
    if d > 0xffff_ffff {
        u32::MAX
    } else {
        d as u32
    }
}

/// Decide the pixel extent of an export from the two size boxes.
pub fn export_dimensions(
    width_text: &str,
    height_text: &str,
    src_width: u32,
    src_height: u32,
) -> (extent: (u32, u32))
    requires
        src_width > 0,
        src_height > 0,
    ensures
        extent == spec_export_dimensions(width_text@, height_text@, src_width, src_height),
{
    match (parse_micros(width_text), parse_micros(height_text)) {
        (Option::Some(wv), Option::Some(hv)) => (scaled_dimension(wv), scaled_dimension(hv)),
        (Option::Some(wv), Option::None) => {
            let w = scaled_dimension(wv);
            (w, derived_dimension(w, src_height, src_width))
        },
        (Option::None, Option::Some(hv)) => {
            let h = scaled_dimension(hv);
            (derived_dimension(h, src_width, src_height), h)
        },
        (Option::None, Option::None) => (src_width, src_height),
    }
}

/// The name of export `n`: `warp_<n>.png`.
pub open spec fn spec_export_file_name(n: nat) -> Seq<char> {
    "warp_"@ + spec_decimal_digits(n) + ".png"@
}

/// The file name of export `n`.
pub fn export_file_name(n: u64) -> (name: String)
    ensures
        name@ == spec_export_file_name(n as nat),
{
    let mut name: String = "warp_".to_owned();
    let digits = decimal_string(n);
    name.append(digits.as_str());
    name.append(".png");
    proof {
        assert(name@ =~= spec_export_file_name(n as nat));
    }
    name
}

/// Whether `v` holds `x`.
fn contains_u64(v: &Vec<u64>, x: u64) -> (found: bool)
    ensures
        found == v@.contains(x),
{
    let n = v.len();
    let mut i: usize = 0;
    while i < n
        invariant
            i <= n,
            n == v@.len(),
            forall|j: int| 0 <= j < i ==> v@[j] != x,
        decreases n - i,
    {
        if v[i] == x {
            assert(v@[i as int] == x);
            return true;
        }
        i = i + 1;
    }
    assert(!v@.contains(x));
    false
}

/// No more than `taken.len()` probes are ever needed: if every index below
/// `bound` is taken, `bound` distinct values occur in `taken`.
proof fn lemma_probe_bound(taken: Seq<u64>, bound: int)
    requires
        0 <= bound <= u64::MAX + 1,
        forall|m: u64| m < bound ==> taken.contains(m),
    ensures
        bound <= taken.len(),
{
    broadcast use vstd::seq_lib::seq_to_set_is_finite;

    let ints = taken.map_values(|x: u64| x as int);
    let range = vstd::set_lib::set_int_range(0, bound);
    vstd::set_lib::lemma_int_range(0, bound);
    assert forall|x: int| range.contains(x) implies ints.to_set().contains(x) by {
        let m = x as u64;
        assert(taken.contains(m));
        let j = choose|j: int| 0 <= j < taken.len() && taken[j] == m;
        assert(ints[j] == x);
        assert(ints.contains(x));
    }
    vstd::set_lib::lemma_len_subset(range, ints.to_set());
    ints.lemma_cardinality_of_set();
}

/// The smallest export index not yet taken.  The caller lists the indices
/// of the exports already on disk; the answer is free, and every smaller
/// index is in use, so the probing never overwrites and never skips.
pub fn next_export_index(taken: &Vec<u64>) -> (n: u64)
    ensures
        !taken@.contains(n),
        forall|m: u64| m < n ==> taken@.contains(m),
{
    let len: usize = taken.len();
    let mut n: u64 = 0;
    loop
        invariant
            len == taken@.len(),
            forall|m: u64| m < n ==> taken@.contains(m),
            n <= len,
        decreases len - n,
    {
        if !contains_u64(taken, n) {
            return n;
        }
        proof {
            lemma_probe_bound(taken@, n as int + 1);
        }
        n = n + 1;
    }
}

} // verus!
