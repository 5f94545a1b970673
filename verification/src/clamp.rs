//! Clamping report text to the remote host's length limit: cut at the last
//! line break that fits, never in the middle of a multi-byte character. The
//! text is handled as UTF-8 bytes, because the limit is a byte count.

use vstd::prelude::*;
use vstd::slice::slice_index_get;
use vstd::slice::slice_subrange;
use vstd::slice::slice_to_vec;

verus! {

/// Is this byte the first byte of a UTF-8 encoded character (equivalently,
/// not a continuation byte)?
pub open spec fn is_utf8_boundary_byte(b: u8) -> bool {
    b < 128 || b >= 192
}

/// A cut right before a byte for which this holds does not split a
/// character.
pub fn is_utf8_char_boundary(b: u8) -> (r: bool)
    ensures
        r == is_utf8_boundary_byte(b),
{
    b < 128 || b >= 192
}

/// The closest position at or below `index` that lies on a character
/// boundary: `index` itself when it is one, else the nearest boundary below,
/// bottoming out at 0; positions past the end round to the length.
pub open spec fn spec_floor_char_boundary(s: Seq<u8>, index: int) -> int
    decreases index,
{
    if index >= s.len() {
        s.len() as int
    } else if index <= 0 {
        0
    } else if is_utf8_boundary_byte(s[index]) {
        index
    } else {
        spec_floor_char_boundary(s, index - 1)
    }
}

/// Where the floor lands: between 0 and the length, at or below `index`,
/// and — except at the two ends — on a boundary byte, with nothing but
/// continuation bytes between it and `index`.
pub proof fn lemma_floor_char_boundary(s: Seq<u8>, index: int)
    requires
        0 <= index,
    ensures
        ({
            let f = spec_floor_char_boundary(s, index);
            &&& 0 <= f <= s.len()
            &&& index < s.len() ==> f <= index
            &&& index >= s.len() ==> f == s.len()
            &&& 0 < f < s.len() ==> is_utf8_boundary_byte(s[f])
            &&& f < s.len() ==> forall|j: int|
                f < j <= index && j < s.len() ==> !is_utf8_boundary_byte(#[trigger] s[j])
        }),
    decreases index,
{
    if index >= s.len() || index <= 0 || is_utf8_boundary_byte(s[index]) {
    } else {
        lemma_floor_char_boundary(s, index - 1);
    }
}

pub fn floor_char_boundary(s: &[u8], index: usize) -> (r: usize)
    ensures
        r == spec_floor_char_boundary(s@, index as int),
{
    let len = s.len();
    if index >= len {
        return len;
    }
    let mut i = index;
    while i > 0 && !is_utf8_char_boundary(*slice_index_get(s, i))
        invariant
            0 <= i <= index < s@.len(),
            spec_floor_char_boundary(s@, index as int) == spec_floor_char_boundary(s@, i as int),
        decreases i,
    {
        i = i - 1;
    }
    i
}

/// The position of the last newline byte, -1 when there is none.
pub open spec fn spec_last_nl(s: Seq<u8>) -> int
    decreases s.len(),
{
    if s.len() == 0 {
        -1
    } else if s.last() == 10 {
        s.len() - 1
    } else {
        spec_last_nl(s.drop_last())
    }
}

/// The last newline is a newline, and nothing after it is one.
pub proof fn lemma_last_nl(s: Seq<u8>)
    ensures
        ({
            let nl = spec_last_nl(s);
            &&& -1 <= nl < s.len()
            &&& nl >= 0 ==> s[nl] == 10
            &&& forall|j: int| nl < j < s.len() ==> #[trigger] s[j] != 10
        }),
    decreases s.len(),
{
    if s.len() == 0 {
    } else if s.last() == 10 {
    } else {
        lemma_last_nl(s.drop_last());
        assert forall|j: int| spec_last_nl(s) < j < s.len() implies #[trigger] s[j] != 10 by {
            if j < s.len() - 1 {
                assert(s.drop_last()[j] == s[j]);
            }
        }
    }
}

/// What clamping produces: the whole text when it fits; otherwise the text
/// up to the last newline within the largest character-boundary prefix of
/// `max` bytes, or that whole prefix when it has no newline.
pub open spec fn spec_clamp_lines(s: Seq<u8>, max: int) -> Seq<u8> {
    if s.len() <= max {
        s
    } else {
        let f = spec_floor_char_boundary(s, max);
        let p = s.take(f);
        let nl = spec_last_nl(p);
        if nl >= 0 {
            s.take(nl)
        } else {
            p
        }
    }
}

/// Clamp `text` to at most `max_bytes` bytes: the result is a prefix, it
/// fits the limit, it ends at the last newline that fits (when the fitting
/// prefix has one), and the cut never lands inside a multi-byte character.
pub fn clamp_lines(text: &[u8], max_bytes: usize) -> (r: Vec<u8>)
    ensures
        r@ == spec_clamp_lines(text@, max_bytes as int),
{
    let len = text.len();
    if len <= max_bytes {
        return slice_to_vec(text);
    }
    let f = floor_char_boundary(text, max_bytes);
    proof {
        lemma_floor_char_boundary(text@, max_bytes as int);
    }
    let mut i = f;
    while i > 0 && *slice_index_get(text, i - 1) != 10
        invariant
            0 <= i <= f <= text@.len(),
            spec_last_nl(text@.take(f as int)) == spec_last_nl(text@.take(i as int)),
        decreases i,
    {
        proof {
            assert(text@.take(i as int).drop_last() =~= text@.take(i as int - 1));
        }
        i = i - 1;
    }
    let cut: usize = if i > 0 {
        proof {
            assert(text@.take(i as int).last() == text@[i as int - 1]);
        }
        i - 1
    } else {
        proof {
            assert(text@.take(0) =~= Seq::<u8>::empty());
        }
        f
    };
    let r = slice_to_vec(slice_subrange(text, 0, cut));
    proof {
        assert(r@ =~= text@.take(cut as int));
        assert(r@ == spec_clamp_lines(text@, max_bytes as int));
    }
    r
}

/// The clamping law: clamping never grows the text, always returns a prefix,
/// respects the limit, cuts only at a character boundary (or at the very
/// start or end), and — when a newline fits — cuts exactly at the last
/// newline that fits, dropping the newline itself.
pub proof fn lemma_clamp_lines_props(s: Seq<u8>, max: int)
    requires
        0 <= max,
    ensures
        ({
            let r = spec_clamp_lines(s, max);
            let f = spec_floor_char_boundary(s, max);
            &&& r.len() <= s.len()
            &&& r == s.take(r.len() as int)
            &&& r.len() <= max
            &&& r.len() == 0 || r.len() == s.len() || is_utf8_boundary_byte(s[r.len() as int])
            &&& s.len() > max && spec_last_nl(s.take(f)) >= 0 ==> s[r.len() as int] == 10
                && (forall|j: int| r.len() < j < f ==> #[trigger] s[j] != 10)
            &&& s.len() > max && spec_last_nl(s.take(f)) < 0 ==> r == s.take(f)
        }),
{
    lemma_floor_char_boundary(s, max);
    let r = spec_clamp_lines(s, max);
    let f = spec_floor_char_boundary(s, max);
    if s.len() <= max {
        assert(r =~= s.take(r.len() as int));
    } else {
        let p = s.take(f);
        lemma_last_nl(p);
        let nl = spec_last_nl(p);
        if nl >= 0 {
            assert(p[nl] == s[nl]);
            assert forall|j: int| r.len() < j < f implies #[trigger] s[j] != 10 by {
                assert(p[j] == s[j]);
            }
        } else {
            if 0 < f < s.len() {
                assert(is_utf8_boundary_byte(s[f]));
            }
        }
    }
}

} // verus!
