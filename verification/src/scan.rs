//! Byte-level scanners over a source buffer.
//!
//! Each scanner exists twice: a recursive spec function that defines what the
//! scanner means, and an executable mirror whose contract ties it to the spec
//! function exactly.  All scanners are bounded by an explicit `hi` position
//! and never read past it.

use vstd::prelude::*;

verus! {

/// Whitespace accepted between tokens.
pub open spec fn is_ws(b: u8) -> bool {
    b == 32u8 || b == 9u8 || b == 10u8 || b == 13u8
}

/// ASCII decimal digit.
pub open spec fn is_digit(b: u8) -> bool {
    48u8 <= b && b <= 57u8
}

/// A byte that may start an identifier.
pub open spec fn is_ident_start(b: u8) -> bool {
    (97u8 <= b && b <= 122u8) || (65u8 <= b && b <= 90u8) || b == 95u8
}

/// A byte that may continue an identifier.
pub open spec fn is_ident_char(b: u8) -> bool {
    is_ident_start(b) || is_digit(b)
}

/// Executable test for [`is_ws`].
pub fn ws_byte(b: u8) -> (r: bool)
    ensures
        r == is_ws(b),
{
    b == 32 || b == 9 || b == 10 || b == 13
}

/// Executable test for [`is_ident_start`].
pub fn ident_start_byte(b: u8) -> (r: bool)
    ensures
        r == is_ident_start(b),
{
    (97 <= b && b <= 122) || (65 <= b && b <= 90) || b == 95
}

/// Executable test for [`is_ident_char`].
pub fn ident_char_byte(b: u8) -> (r: bool)
    ensures
        r == is_ident_char(b),
{
    ident_start_byte(b) || (48 <= b && b <= 57)
}

/// First position at or after `i`, below `hi`, holding a non-whitespace byte
/// (or `hi` when none is left).
pub open spec fn skip_ws(s: Seq<u8>, i: int, hi: int) -> int
    decreases hi - i,
{
    if i < hi && hi <= s.len() && is_ws(s[i]) {
        skip_ws(s, i + 1, hi)
    } else {
        i
    }
}

/// `skip_ws` never moves backwards and never passes `hi`.
pub proof fn lemma_skip_ws_bounds(s: Seq<u8>, i: int, hi: int)
    ensures
        i <= skip_ws(s, i, hi),
        i <= hi ==> skip_ws(s, i, hi) <= hi,
    decreases hi - i,
{
    if i < hi && hi <= s.len() && is_ws(s[i]) {
        lemma_skip_ws_bounds(s, i + 1, hi);
    }
}

/// Executable mirror of [`skip_ws`].
pub fn skip_ws_at(s: &Vec<u8>, i: usize, hi: usize) -> (r: usize)
    requires
        i <= hi,
        hi <= s.len(),
    ensures
        r == skip_ws(s@, i as int, hi as int),
        i <= r <= hi,
    decreases hi - i,
{
    if i < hi && ws_byte(s[i]) {
        skip_ws_at(s, i + 1, hi)
    } else {
        i
    }
}

/// End of the identifier run starting at `i` (which is `i` itself when the
/// byte there does not continue an identifier).
pub open spec fn scan_ident_end(s: Seq<u8>, i: int, hi: int) -> int
    decreases hi - i,
{
    if i < hi && hi <= s.len() && is_ident_char(s[i]) {
        scan_ident_end(s, i + 1, hi)
    } else {
        i
    }
}

/// Executable mirror of [`scan_ident_end`].
pub fn ident_end_at(s: &Vec<u8>, i: usize, hi: usize) -> (r: usize)
    requires
        i <= hi,
        hi <= s.len(),
    ensures
        r == scan_ident_end(s@, i as int, hi as int),
        i <= r <= hi,
    decreases hi - i,
{
    if i < hi && ident_char_byte(s[i]) {
        ident_end_at(s, i + 1, hi)
    } else {
        i
    }
}

/// Largest position at most `hi` such that no trailing whitespace remains in
/// `s[lo .. result]`.
pub open spec fn trim_end(s: Seq<u8>, lo: int, hi: int) -> int
    decreases hi - lo,
{
    if lo < hi && hi <= s.len() && is_ws(s[hi - 1]) {
        trim_end(s, lo, hi - 1)
    } else {
        hi
    }
}

/// `trim_end` stays within `[lo, hi]` when the range is ordered.
pub proof fn lemma_trim_end_bounds(s: Seq<u8>, lo: int, hi: int)
    ensures
        trim_end(s, lo, hi) <= hi,
        lo <= hi ==> lo <= trim_end(s, lo, hi),
    decreases hi - lo,
{
    if lo < hi && hi <= s.len() && is_ws(s[hi - 1]) {
        lemma_trim_end_bounds(s, lo, hi - 1);
    }
}

/// Executable mirror of [`trim_end`].
pub fn trim_end_at(s: &Vec<u8>, lo: usize, hi: usize) -> (r: usize)
    requires
        lo <= hi,
        hi <= s.len(),
    ensures
        r == trim_end(s@, lo as int, hi as int),
        lo <= r <= hi,
    decreases hi - lo,
{
    if lo < hi && ws_byte(s[hi - 1]) {
        trim_end_at(s, lo, hi - 1)
    } else {
        hi
    }
}

/// Position just past the `>` matching an already-open angle-bracket run of
/// depth `depth`, skipping `->` arrows; `None` when the run never closes
/// before `hi`.
pub open spec fn scan_angle(s: Seq<u8>, i: int, hi: int, depth: int) -> Option<int>
    decreases hi - i,
{
    if depth <= 0 {
        Option::Some(i)
    } else if i >= hi || hi > s.len() {
        Option::None
    } else if s[i] == 45u8 && i + 1 < hi && s[i + 1] == 62u8 {
        scan_angle(s, i + 2, hi, depth)
    } else if s[i] == 60u8 {
        scan_angle(s, i + 1, hi, depth + 1)
    } else if s[i] == 62u8 {
        scan_angle(s, i + 1, hi, depth - 1)
    } else {
        scan_angle(s, i + 1, hi, depth)
    }
}

/// Executable mirror of [`scan_angle`].
pub fn angle_close_at(s: &Vec<u8>, i: usize, hi: usize, depth: usize) -> (r: Option<usize>)
    requires
        i <= hi,
        hi <= s.len(),
        depth <= i,
    ensures
        match r {
            Option::Some(j) => scan_angle(s@, i as int, hi as int, depth as int)
                == Option::Some(j as int) && i <= j <= hi,
            Option::None => scan_angle(s@, i as int, hi as int, depth as int).is_none(),
        },
    decreases hi - i,
{
    if depth == 0 {
        Option::Some(i)
    } else if i >= hi {
        Option::None
    } else if s[i] == 45 && i + 1 < hi && s[i + 1] == 62 {
        angle_close_at(s, i + 2, hi, depth)
    } else if s[i] == 60 {
        angle_close_at(s, i + 1, hi, depth + 1)
    } else if s[i] == 62 {
        angle_close_at(s, i + 1, hi, depth - 1)
    } else {
        angle_close_at(s, i + 1, hi, depth)
    }
}

/// Position just past the `)` matching an already-open parenthesis run of
/// depth `depth`; `None` when it never closes before `hi`.
pub open spec fn scan_paren(s: Seq<u8>, i: int, hi: int, depth: int) -> Option<int>
    decreases hi - i,
{
    if i >= hi || hi > s.len() {
        Option::None
    } else if s[i] == 40u8 {
        scan_paren(s, i + 1, hi, depth + 1)
    } else if s[i] == 41u8 {
        if depth <= 1 {
            Option::Some(i + 1)
        } else {
            scan_paren(s, i + 1, hi, depth - 1)
        }
    } else {
        scan_paren(s, i + 1, hi, depth)
    }
}

/// Executable mirror of [`scan_paren`].
pub fn paren_close_at(s: &Vec<u8>, i: usize, hi: usize, depth: usize) -> (r: Option<usize>)
    requires
        i <= hi,
        hi <= s.len(),
        depth <= i,
        1 <= depth,
    ensures
        match r {
            Option::Some(j) => scan_paren(s@, i as int, hi as int, depth as int)
                == Option::Some(j as int) && i < j <= hi,
            Option::None => scan_paren(s@, i as int, hi as int, depth as int).is_none(),
        },
    decreases hi - i,
{
    if i >= hi {
        Option::None
    } else if s[i] == 40 {
        paren_close_at(s, i + 1, hi, depth + 1)
    } else if s[i] == 41 {
        if depth <= 1 {
            Option::Some(i + 1)
        } else {
            paren_close_at(s, i + 1, hi, depth - 1)
        }
    } else {
        paren_close_at(s, i + 1, hi, depth)
    }
}

/// Position just past the `}` matching an already-open brace run of depth
/// `depth`; `None` when it never closes before `hi`.
pub open spec fn scan_block_end(s: Seq<u8>, i: int, hi: int, depth: int) -> Option<int>
    decreases hi - i,
{
    if i >= hi || hi > s.len() {
        Option::None
    } else if s[i] == 123u8 {
        scan_block_end(s, i + 1, hi, depth + 1)
    } else if s[i] == 125u8 {
        if depth <= 1 {
            Option::Some(i + 1)
        } else {
            scan_block_end(s, i + 1, hi, depth - 1)
        }
    } else {
        scan_block_end(s, i + 1, hi, depth)
    }
}

/// Executable mirror of [`scan_block_end`].
pub fn block_end_at(s: &Vec<u8>, i: usize, hi: usize, depth: usize) -> (r: Option<usize>)
    requires
        i <= hi,
        hi <= s.len(),
        depth <= i,
        1 <= depth,
    ensures
        match r {
            Option::Some(j) => scan_block_end(s@, i as int, hi as int, depth as int)
                == Option::Some(j as int) && i < j <= hi,
            Option::None => scan_block_end(s@, i as int, hi as int, depth as int).is_none(),
        },
    decreases hi - i,
{
    if i >= hi {
        Option::None
    } else if s[i] == 123 {
        block_end_at(s, i + 1, hi, depth + 1)
    } else if s[i] == 125 {
        if depth <= 1 {
            Option::Some(i + 1)
        } else {
            block_end_at(s, i + 1, hi, depth - 1)
        }
    } else {
        block_end_at(s, i + 1, hi, depth)
    }
}

/// Position of the `,` or `)` that ends the parameter starting at `i`,
/// tracking bracket depth over `(`, `[` and `<` and skipping `->` arrows;
/// `None` when the parameter never ends before `hi` or a closer is unmatched.
pub open spec fn scan_param_end(s: Seq<u8>, i: int, hi: int, depth: int) -> Option<int>
    decreases hi - i,
{
    if i >= hi || hi > s.len() {
        Option::None
    } else if depth <= 0 && (s[i] == 44u8 || s[i] == 41u8) {
        Option::Some(i)
    } else if s[i] == 45u8 && i + 1 < hi && s[i + 1] == 62u8 {
        scan_param_end(s, i + 2, hi, depth)
    } else if s[i] == 40u8 || s[i] == 91u8 || s[i] == 60u8 {
        scan_param_end(s, i + 1, hi, depth + 1)
    } else if s[i] == 41u8 || s[i] == 93u8 || s[i] == 62u8 {
        if depth <= 0 {
            Option::None
        } else {
            scan_param_end(s, i + 1, hi, depth - 1)
        }
    } else {
        scan_param_end(s, i + 1, hi, depth)
    }
}

/// A found parameter end lies in `[i, hi)`.
pub proof fn lemma_scan_param_end_bounds(s: Seq<u8>, i: int, hi: int, depth: int)
    ensures
        match scan_param_end(s, i, hi, depth) {
            Option::Some(j) => i <= j < hi && hi <= s.len(),
            Option::None => true,
        },
    decreases hi - i,
{
    if i >= hi || hi > s.len() {
    } else if depth <= 0 && (s[i] == 44u8 || s[i] == 41u8) {
    } else if s[i] == 45u8 && i + 1 < hi && s[i + 1] == 62u8 {
        lemma_scan_param_end_bounds(s, i + 2, hi, depth);
    } else if s[i] == 40u8 || s[i] == 91u8 || s[i] == 60u8 {
        lemma_scan_param_end_bounds(s, i + 1, hi, depth + 1);
    } else if s[i] == 41u8 || s[i] == 93u8 || s[i] == 62u8 {
        if depth > 0 {
            lemma_scan_param_end_bounds(s, i + 1, hi, depth - 1);
        }
    } else {
        lemma_scan_param_end_bounds(s, i + 1, hi, depth);
    }
}

/// Executable mirror of [`scan_param_end`].
pub fn param_end_at(s: &Vec<u8>, i: usize, hi: usize, depth: usize) -> (r: Option<usize>)
    requires
        i <= hi,
        hi <= s.len(),
        depth <= i,
    ensures
        match r {
            Option::Some(j) => scan_param_end(s@, i as int, hi as int, depth as int)
                == Option::Some(j as int) && i <= j < hi,
            Option::None => scan_param_end(s@, i as int, hi as int, depth as int).is_none(),
        },
    decreases hi - i,
{
    if i >= hi {
        Option::None
    } else if depth == 0 && (s[i] == 44 || s[i] == 41) {
        Option::Some(i)
    } else if s[i] == 45 && i + 1 < hi && s[i + 1] == 62 {
        param_end_at(s, i + 2, hi, depth)
    } else if s[i] == 40 || s[i] == 91 || s[i] == 60 {
        param_end_at(s, i + 1, hi, depth + 1)
    } else if s[i] == 41 || s[i] == 93 || s[i] == 62 {
        if depth == 0 {
            Option::None
        } else {
            param_end_at(s, i + 1, hi, depth - 1)
        }
    } else {
        param_end_at(s, i + 1, hi, depth)
    }
}

/// Position of the `{` that opens the body after a return type, tracking
/// bracket depth as [`scan_param_end`] does; `None` when no such `{` stands
/// before `hi` at depth zero, or a closer is unmatched, or a `{` appears at
/// positive depth.
pub open spec fn scan_type_end(s: Seq<u8>, i: int, hi: int, depth: int) -> Option<int>
    decreases hi - i,
{
    if i >= hi || hi > s.len() {
        Option::None
    } else if depth <= 0 && s[i] == 123u8 {
        Option::Some(i)
    } else if s[i] == 45u8 && i + 1 < hi && s[i + 1] == 62u8 {
        scan_type_end(s, i + 2, hi, depth)
    } else if s[i] == 40u8 || s[i] == 91u8 || s[i] == 60u8 {
        scan_type_end(s, i + 1, hi, depth + 1)
    } else if s[i] == 41u8 || s[i] == 93u8 || s[i] == 62u8 {
        if depth <= 0 {
            Option::None
        } else {
            scan_type_end(s, i + 1, hi, depth - 1)
        }
    } else if s[i] == 123u8 {
        Option::None
    } else {
        scan_type_end(s, i + 1, hi, depth)
    }
}

/// Executable mirror of [`scan_type_end`].
pub fn type_end_at(s: &Vec<u8>, i: usize, hi: usize, depth: usize) -> (r: Option<usize>)
    requires
        i <= hi,
        hi <= s.len(),
        depth <= i,
    ensures
        match r {
            Option::Some(j) => scan_type_end(s@, i as int, hi as int, depth as int)
                == Option::Some(j as int) && i <= j < hi,
            Option::None => scan_type_end(s@, i as int, hi as int, depth as int).is_none(),
        },
    decreases hi - i,
{
    if i >= hi {
        Option::None
    } else if depth == 0 && s[i] == 123 {
        Option::Some(i)
    } else if s[i] == 45 && i + 1 < hi && s[i + 1] == 62 {
        type_end_at(s, i + 2, hi, depth)
    } else if s[i] == 40 || s[i] == 91 || s[i] == 60 {
        type_end_at(s, i + 1, hi, depth + 1)
    } else if s[i] == 41 || s[i] == 93 || s[i] == 62 {
        if depth == 0 {
            Option::None
        } else {
            type_end_at(s, i + 1, hi, depth - 1)
        }
    } else if s[i] == 123 {
        Option::None
    } else {
        type_end_at(s, i + 1, hi, depth)
    }
}

/// Position of the first top-level `:` (not part of a `::` path separator)
/// in `s[i .. hi]`, tracking bracket depth as [`scan_param_end`] does; `None`
/// when there is none.
pub open spec fn scan_colon(s: Seq<u8>, i: int, hi: int, depth: int) -> Option<int>
    decreases hi - i,
{
    if i >= hi || hi > s.len() {
        Option::None
    } else if s[i] == 58u8 && i + 1 < hi && s[i + 1] == 58u8 {
        scan_colon(s, i + 2, hi, depth)
    } else if s[i] == 58u8 && depth <= 0 {
        Option::Some(i)
    } else if s[i] == 45u8 && i + 1 < hi && s[i + 1] == 62u8 {
        scan_colon(s, i + 2, hi, depth)
    } else if s[i] == 40u8 || s[i] == 91u8 || s[i] == 60u8 {
        scan_colon(s, i + 1, hi, depth + 1)
    } else if s[i] == 41u8 || s[i] == 93u8 || s[i] == 62u8 {
        if depth <= 0 {
            Option::None
        } else {
            scan_colon(s, i + 1, hi, depth - 1)
        }
    } else {
        scan_colon(s, i + 1, hi, depth)
    }
}

/// Executable mirror of [`scan_colon`].
pub fn colon_at(s: &Vec<u8>, i: usize, hi: usize, depth: usize) -> (r: Option<usize>)
    requires
        i <= hi,
        hi <= s.len(),
        depth <= i,
    ensures
        match r {
            Option::Some(j) => scan_colon(s@, i as int, hi as int, depth as int)
                == Option::Some(j as int) && i <= j < hi,
            Option::None => scan_colon(s@, i as int, hi as int, depth as int).is_none(),
        },
    decreases hi - i,
{
    if i >= hi {
        Option::None
    } else if s[i] == 58 && i + 1 < hi && s[i + 1] == 58 {
        colon_at(s, i + 2, hi, depth)
    } else if s[i] == 58 && depth == 0 {
        Option::Some(i)
    } else if s[i] == 45 && i + 1 < hi && s[i + 1] == 62 {
        colon_at(s, i + 2, hi, depth)
    } else if s[i] == 40 || s[i] == 91 || s[i] == 60 {
        colon_at(s, i + 1, hi, depth + 1)
    } else if s[i] == 41 || s[i] == 93 || s[i] == 62 {
        if depth == 0 {
            Option::None
        } else {
            colon_at(s, i + 1, hi, depth - 1)
        }
    } else {
        colon_at(s, i + 1, hi, depth)
    }
}

/// Copy of `s[lo .. hi]` as a fresh buffer.
pub fn copy_range(s: &Vec<u8>, lo: usize, hi: usize) -> (r: Vec<u8>)
    requires
        lo <= hi,
        hi <= s.len(),
    ensures
        r@ == s@.subrange(lo as int, hi as int),
{
    let mut out: Vec<u8> = Vec::new();
    let mut k: usize = lo;
    while k < hi
        invariant
            lo <= k <= hi,
            hi <= s.len(),
            out@ == s@.subrange(lo as int, k as int),
        decreases hi - k,
    {
        out.push(s[k]);
        assert(s@.subrange(lo as int, k + 1 as int)
            == s@.subrange(lo as int, k as int).push(s@[k as int]));
        k = k + 1;
    }
    out
}

/// Append a copy of `src[lo .. hi]` to `dst`.
pub fn push_range(dst: &mut Vec<u8>, src: &Vec<u8>, lo: usize, hi: usize)
    requires
        lo <= hi,
        hi <= src.len(),
    ensures
        final(dst)@ == old(dst)@ + src@.subrange(lo as int, hi as int),
{
    let mut k: usize = lo;
    while k < hi
        invariant
            lo <= k <= hi,
            hi <= src.len(),
            dst@ == old(dst)@ + src@.subrange(lo as int, k as int),
        decreases hi - k,
    {
        dst.push(src[k]);
        assert(src@.subrange(lo as int, k + 1 as int)
            == src@.subrange(lo as int, k as int).push(src@[k as int]));
        k = k + 1;
    }
}

} // verus!
