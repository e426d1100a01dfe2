//! Text primitives shared by the commands: whitespace trimming, comparison and
//! case conversion.

use vstd::prelude::*;
use vstd::string::*;
use vstd::utf8::*;

verus! {

/// Whether `c` carries the Unicode `White_Space` property.
pub uninterp spec fn is_whitespace(c: char) -> bool;

/// `char::is_whitespace` decides the `White_Space` property of a single
/// character; its answer depends on the character alone.
pub assume_specification[ char::is_whitespace ](c: char) -> (b: bool)
    ensures
        b == is_whitespace(c),
;

/// A text is blank when it holds nothing but whitespace; the empty text is blank.
pub open spec fn is_blank(s: Seq<char>) -> bool {
    forall|i: int| 0 <= i < s.len() ==> is_whitespace(#[trigger] s[i])
}

/// The first position at or after `i` that holds no whitespace, or the length
/// of `s` when only whitespace follows.
pub open spec fn skip_whitespace(s: Seq<char>, i: int) -> int
    decreases s.len() - i,
{
    if 0 <= i < s.len() && is_whitespace(s[i]) {
        skip_whitespace(s, i + 1)
    } else {
        i
    }
}

/// The end of the text that is left when the whitespace before position `j` is
/// dropped, going no further back than `floor`.
pub open spec fn drop_whitespace(s: Seq<char>, floor: int, j: int) -> int
    decreases j,
{
    if 0 <= floor < j <= s.len() && is_whitespace(s[j - 1]) {
        drop_whitespace(s, floor, j - 1)
    } else {
        j
    }
}

/// `s` without its leading and trailing whitespace.
pub open spec fn trimmed(s: Seq<char>) -> Seq<char> {
    let start = skip_whitespace(s, 0);
    let end = drop_whitespace(s, start, s.len() as int);
    s.subrange(start, end)
}

/// `skip_whitespace` stays within the text and stops at the first character
/// that is not whitespace.
pub proof fn lemma_skip_whitespace(s: Seq<char>, i: int)
    requires
        0 <= i <= s.len(),
    ensures
        i <= skip_whitespace(s, i) <= s.len(),
        forall|k: int| i <= k < skip_whitespace(s, i) ==> is_whitespace(#[trigger] s[k]),
        skip_whitespace(s, i) < s.len() ==> !is_whitespace(s[skip_whitespace(s, i)]),
    decreases s.len() - i,
{
    if i < s.len() && is_whitespace(s[i]) {
        lemma_skip_whitespace(s, i + 1);
    }
}

/// `drop_whitespace` stays between `floor` and `j` and stops behind the last
/// character that is not whitespace.
pub proof fn lemma_drop_whitespace(s: Seq<char>, floor: int, j: int)
    requires
        0 <= floor <= j <= s.len(),
    ensures
        floor <= drop_whitespace(s, floor, j) <= j,
        forall|k: int| drop_whitespace(s, floor, j) <= k < j ==> is_whitespace(#[trigger] s[k]),
        floor < drop_whitespace(s, floor, j) ==> !is_whitespace(
            s[drop_whitespace(s, floor, j) - 1],
        ),
    decreases j,
{
    if floor < j && is_whitespace(s[j - 1]) {
        lemma_drop_whitespace(s, floor, j - 1);
    }
}

/// Where `end` lies behind a character that is not whitespace and only
/// whitespace follows up to `j`, dropping whitespace from `j` stops at `end`.
proof fn lemma_drop_whitespace_stops(s: Seq<char>, floor: int, end: int, j: int)
    requires
        0 <= floor <= end <= j <= s.len(),
        forall|k: int| end <= k < j ==> is_whitespace(#[trigger] s[k]),
        floor < end ==> !is_whitespace(s[end - 1]),
    ensures
        drop_whitespace(s, floor, j) == end,
    decreases j - end,
{
    if end < j {
        assert(is_whitespace(s[j - 1]));
        lemma_drop_whitespace_stops(s, floor, end, j - 1);
    }
}

/// The leading whitespace of `s`, the same text seen from position `i`.
proof fn lemma_skip_whitespace_reaches(s: Seq<char>, i: int, start: int)
    requires
        0 <= i <= start <= s.len(),
        forall|k: int| i <= k < start ==> is_whitespace(#[trigger] s[k]),
        start < s.len() ==> !is_whitespace(s[start]),
    ensures
        skip_whitespace(s, i) == start,
    decreases start - i,
{
    if i < start {
        assert(is_whitespace(s[i]));
        lemma_skip_whitespace_reaches(s, i + 1, start);
    }
}

/// Trimming leaves nothing exactly when the text is blank.
pub proof fn lemma_trimmed_empty_iff_blank(s: Seq<char>)
    ensures
        trimmed(s).len() == 0 <==> is_blank(s),
{
    let start = skip_whitespace(s, 0);
    lemma_skip_whitespace(s, 0);
    lemma_drop_whitespace(s, start, s.len() as int);
    let end = drop_whitespace(s, start, s.len() as int);
    if start == end {
        assert forall|i: int| 0 <= i < s.len() implies is_whitespace(#[trigger] s[i]) by {
            if i >= start {
                assert(end <= i);
            }
        }
    } else {
        assert(!is_whitespace(s[start]));
    }
}

/// What trimming leaves neither starts nor ends with whitespace, and only
/// whitespace was taken away on either side of it.
pub proof fn lemma_trimmed_shape(s: Seq<char>)
    ensures
        ({
            let start = skip_whitespace(s, 0);
            let end = drop_whitespace(s, start, s.len() as int);
            &&& 0 <= start <= end <= s.len()
            &&& trimmed(s) == s.subrange(start, end)
            &&& forall|k: int| 0 <= k < start ==> is_whitespace(#[trigger] s[k])
            &&& forall|k: int| end <= k < s.len() ==> is_whitespace(#[trigger] s[k])
            &&& trimmed(s).len() > 0 ==> !is_whitespace(trimmed(s).first()) && !is_whitespace(
                trimmed(s).last(),
            )
        }),
{
    let start = skip_whitespace(s, 0);
    lemma_skip_whitespace(s, 0);
    lemma_drop_whitespace(s, start, s.len() as int);
}

/// Trimming a trimmed text changes nothing.
pub proof fn lemma_trimmed_is_stable(s: Seq<char>)
    ensures
        trimmed(trimmed(s)) == trimmed(s),
{
    let t = trimmed(s);
    lemma_trimmed_shape(s);
    if t.len() > 0 {
        lemma_skip_whitespace_reaches(t, 0, 0);
        lemma_drop_whitespace_stops(t, 0, t.len() as int, t.len() as int);
        assert(t.subrange(0, t.len() as int) =~= t);
    } else {
        assert(t.subrange(0, 0) =~= t);
    }
}

/// Removes leading and trailing whitespace.
pub fn trim(s: &str) -> (r: &str)
    ensures
        r@ == trimmed(s@),
{
    let total = s.unicode_len();
    let mut start: usize = 0;
    let mut end: usize = 0;
    let mut position: usize = 0;
    for c in it: s.chars()
        invariant
            it.seq() == s@,
            total == s@.len(),
            position == it.index(),
            0 <= start <= end <= position,
            forall|k: int| 0 <= k < start ==> is_whitespace(#[trigger] s@[k]),
            start < position ==> !is_whitespace(s@[start as int]),
            start == end ==> start == position,
            start < end ==> !is_whitespace(s@[end - 1]),
            forall|k: int| end <= k < position ==> is_whitespace(#[trigger] s@[k]),
    {
        let blank = c.is_whitespace();
        if !blank {
            end = position + 1;
        } else if start == position {
            start = position + 1;
            end = position + 1;
        }
        position = position + 1;
    }
    proof {
        lemma_skip_whitespace_reaches(s@, 0, start as int);
        lemma_drop_whitespace_stops(s@, start as int, end as int, s@.len() as int);
    }
    s.substring_char(start, end)
}

/// Whether two texts hold the same characters.
pub fn same_text(a: &str, b: &str) -> (r: bool)
    ensures
        r == (a@ == b@),
{
    let left = a.as_bytes();
    let right = b.as_bytes();
    if left.len() != right.len() {
        return false;
    }
    let mut i: usize = 0;
    while i < left.len()
        invariant
            i <= left@.len(),
            left@ == encode_utf8(a@),
            right@ == encode_utf8(b@),
            left@.len() == right@.len(),
            forall|k: int| 0 <= k < i ==> left@[k] == right@[k],
        decreases left@.len() - i,
    {
        if left[i] != right[i] {
            return false;
        }
        i = i + 1;
    }
    proof {
        assert(left@ =~= right@);
        encode_utf8_decode_utf8(a@);
        encode_utf8_decode_utf8(b@);
    }
    true
}

/// The lowercase form of a text, as Unicode defines it.
pub uninterp spec fn lowercase_of(s: Seq<char>) -> Seq<char>;

/// The uppercase form of a text, as Unicode defines it.
pub uninterp spec fn uppercase_of(s: Seq<char>) -> Seq<char>;

/// `str::to_lowercase` returns the lowercase form of the text it is given; the
/// result depends on the characters alone.
pub assume_specification[ str::to_lowercase ](s: &str) -> (r: String)
    ensures
        r@ == lowercase_of(s@),
;

/// `str::to_uppercase` returns the uppercase form of the text it is given; the
/// result depends on the characters alone.
pub assume_specification[ str::to_uppercase ](s: &str) -> (r: String)
    ensures
        r@ == uppercase_of(s@),
;

} // verus!
