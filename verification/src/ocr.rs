//! Normalization of raw OCR output, and the plain-value halves of the
//! capture pipeline: checking the selector's geometry and rejecting empty
//! recognition results.
//!
//! The text transform runs in a fixed order: soft hyphens are removed, a
//! hyphen directly before a line break is deleted together with the break,
//! carriage returns are dropped and remaining line breaks become spaces,
//! and finally whitespace runs collapse to single spaces with the ends
//! trimmed.

use vstd::prelude::*;

use crate::error::Error;
use crate::text::{chars_to_string, is_space, is_space_char, str_chars, trim_leading, trim_spec,
    trim_str};

verus! {

/// First step: every soft hyphen (U+00AD) is removed.
pub open spec fn drop_soft_hyphens(s: Seq<char>) -> Seq<char>
    decreases s.len(),
{
    if s.len() == 0 {
        Seq::empty()
    } else if s[0] == '\u{AD}' {
        drop_soft_hyphens(s.skip(1))
    } else {
        seq![s[0]] + drop_soft_hyphens(s.skip(1))
    }
}

/// Second step: a hyphen immediately followed by a line break is deleted
/// together with the break, scanning left to right without rescanning.
pub open spec fn join_hyphen_breaks(s: Seq<char>) -> Seq<char>
    decreases s.len(),
{
    if s.len() == 0 {
        Seq::empty()
    } else if s.len() >= 2 && s[0] == '-' && s[1] == '\n' {
        join_hyphen_breaks(s.skip(2))
    } else {
        seq![s[0]] + join_hyphen_breaks(s.skip(1))
    }
}

/// Third step: carriage returns are removed and line breaks become spaces.
pub open spec fn breaks_to_spaces(s: Seq<char>) -> Seq<char>
    decreases s.len(),
{
    if s.len() == 0 {
        Seq::empty()
    } else if s[0] == '\r' {
        breaks_to_spaces(s.skip(1))
    } else if s[0] == '\n' {
        seq![' '] + breaks_to_spaces(s.skip(1))
    } else {
        seq![s[0]] + breaks_to_spaces(s.skip(1))
    }
}

/// Core of the last step, on a string with no leading whitespace: a run of
/// whitespace becomes one plain space, and a trailing run disappears.
pub open spec fn squeeze(s: Seq<char>) -> Seq<char>
    decreases s.len(),
{
    if s.len() == 0 {
        Seq::empty()
    } else if !is_space(s[0]) {
        seq![s[0]] + squeeze(s.skip(1))
    } else if s.len() == 1 {
        Seq::empty()
    } else if is_space(s[1]) {
        squeeze(s.skip(1))
    } else {
        seq![' '] + squeeze(s.skip(1))
    }
}

/// Last step: whitespace runs collapse to single spaces; both ends are
/// trimmed.
pub open spec fn collapse_spaces(s: Seq<char>) -> Seq<char> {
    squeeze(trim_leading(s))
}

/// The whole transform applied to raw OCR output.
pub open spec fn tidy_spec(s: Seq<char>) -> Seq<char> {
    collapse_spaces(breaks_to_spaces(join_hyphen_breaks(drop_soft_hyphens(s))))
}

fn pass_drop_soft_hyphens(v: &Vec<char>) -> (out: Vec<char>)
    ensures
        out@ == drop_soft_hyphens(v@),
{
    let mut out: Vec<char> = Vec::new();
    let mut i: usize = 0;
    proof {
        assert(v@.skip(0) =~= v@);
        assert(Seq::<char>::empty() + drop_soft_hyphens(v@) =~= drop_soft_hyphens(v@));
    }
    while i < v.len()
        invariant
            i <= v.len(),
            out@ + drop_soft_hyphens(v@.skip(i as int)) == drop_soft_hyphens(v@),
        decreases v.len() - i,
    {
        let c = v[i];
        proof {
            assert(v@.skip(i as int)[0] == v@[i as int]);
            assert(v@.skip(i as int).skip(1) =~= v@.skip(i + 1));
        }
        if c != '\u{AD}' {
            let ghost prev = out@;
            out.push(c);
            proof {
                assert(prev.push(c) + drop_soft_hyphens(v@.skip(i + 1)) =~= prev + (seq![c]
                    + drop_soft_hyphens(v@.skip(i + 1))));
            }
        }
        i = i + 1;
    }
    proof {
        assert(v@.skip(v@.len() as int) =~= Seq::<char>::empty());
        assert(out@ + Seq::<char>::empty() =~= out@);
    }
    out
}

fn pass_join_hyphen_breaks(v: &Vec<char>) -> (out: Vec<char>)
    ensures
        out@ == join_hyphen_breaks(v@),
{
    let mut out: Vec<char> = Vec::new();
    let mut i: usize = 0;
    proof {
        assert(v@.skip(0) =~= v@);
        assert(Seq::<char>::empty() + join_hyphen_breaks(v@) =~= join_hyphen_breaks(v@));
    }
    while i < v.len()
        invariant
            i <= v.len(),
            out@ + join_hyphen_breaks(v@.skip(i as int)) == join_hyphen_breaks(v@),
        decreases v.len() - i,
    {
        let c = v[i];
        proof {
            assert(v@.skip(i as int)[0] == v@[i as int]);
            assert(v@.skip(i as int).skip(1) =~= v@.skip(i + 1));
        }
        if c == '-' && i + 1 < v.len() && v[i + 1] == '\n' {
            proof {
                assert(v@.skip(i as int)[1] == v@[i + 1]);
                assert(v@.skip(i as int).skip(2) =~= v@.skip(i + 2));
            }
            i = i + 2;
        } else {
            let ghost prev = out@;
            out.push(c);
            proof {
                if i + 1 < v.len() {
                    assert(v@.skip(i as int)[1] == v@[i + 1]);
                }
                assert(prev.push(c) + join_hyphen_breaks(v@.skip(i + 1)) =~= prev + (seq![c]
                    + join_hyphen_breaks(v@.skip(i + 1))));
            }
            i = i + 1;
        }
    }
    proof {
        assert(v@.skip(v@.len() as int) =~= Seq::<char>::empty());
        assert(out@ + Seq::<char>::empty() =~= out@);
    }
    out
}

fn pass_breaks_to_spaces(v: &Vec<char>) -> (out: Vec<char>)
    ensures
        out@ == breaks_to_spaces(v@),
{
    let mut out: Vec<char> = Vec::new();
    let mut i: usize = 0;
    proof {
        assert(v@.skip(0) =~= v@);
        assert(Seq::<char>::empty() + breaks_to_spaces(v@) =~= breaks_to_spaces(v@));
    }
    while i < v.len()
        invariant
            i <= v.len(),
            out@ + breaks_to_spaces(v@.skip(i as int)) == breaks_to_spaces(v@),
        decreases v.len() - i,
    {
        let c = v[i];
        proof {
            assert(v@.skip(i as int)[0] == v@[i as int]);
            assert(v@.skip(i as int).skip(1) =~= v@.skip(i + 1));
        }
        if c == '\r' {
        } else if c == '\n' {
            let ghost prev = out@;
            out.push(' ');
            proof {
                assert(prev.push(' ') + breaks_to_spaces(v@.skip(i + 1)) =~= prev + (seq![' ']
                    + breaks_to_spaces(v@.skip(i + 1))));
            }
        } else {
            let ghost prev = out@;
            out.push(c);
            proof {
                assert(prev.push(c) + breaks_to_spaces(v@.skip(i + 1)) =~= prev + (seq![c]
                    + breaks_to_spaces(v@.skip(i + 1))));
            }
        }
        i = i + 1;
    }
    proof {
        assert(v@.skip(v@.len() as int) =~= Seq::<char>::empty());
        assert(out@ + Seq::<char>::empty() =~= out@);
    }
    out
}

fn pass_collapse_spaces(v: &Vec<char>) -> (out: Vec<char>)
    ensures
        out@ == collapse_spaces(v@),
{
    let mut i: usize = 0;
    proof {
        assert(v@.skip(0) =~= v@);
    }
    while i < v.len() && is_space_char(v[i])
        invariant
            i <= v.len(),
            trim_leading(v@) == trim_leading(v@.skip(i as int)),
        decreases v.len() - i,
    {
        proof {
            assert(v@.skip(i as int)[0] == v@[i as int]);
            assert(v@.skip(i as int).skip(1) =~= v@.skip(i + 1));
        }
        i = i + 1;
    }
    proof {
        if i < v.len() {
            assert(v@.skip(i as int)[0] == v@[i as int]);
        } else {
            assert(v@.skip(i as int) =~= Seq::<char>::empty());
        }
        assert(trim_leading(v@) == v@.skip(i as int));
    }
    let ghost start = i as int;
    let mut out: Vec<char> = Vec::new();
    proof {
        assert(Seq::<char>::empty() + squeeze(v@.skip(start)) =~= squeeze(v@.skip(start)));
    }
    while i < v.len()
        invariant
            start <= i <= v.len(),
            out@ + squeeze(v@.skip(i as int)) == squeeze(v@.skip(start)),
        decreases v.len() - i,
    {
        let c = v[i];
        proof {
            assert(v@.skip(i as int)[0] == v@[i as int]);
            assert(v@.skip(i as int).skip(1) =~= v@.skip(i + 1));
            if i + 1 < v.len() {
                assert(v@.skip(i as int)[1] == v@[i + 1]);
            }
        }
        if !is_space_char(c) {
            let ghost prev = out@;
            out.push(c);
            proof {
                assert(prev.push(c) + squeeze(v@.skip(i + 1)) =~= prev + (seq![c] + squeeze(
                    v@.skip(i + 1),
                )));
            }
        } else if i + 1 < v.len() && !is_space_char(v[i + 1]) {
            let ghost prev = out@;
            out.push(' ');
            proof {
                assert(prev.push(' ') + squeeze(v@.skip(i + 1)) =~= prev + (seq![' '] + squeeze(
                    v@.skip(i + 1),
                )));
            }
        } else {
            proof {
                if i + 1 == v.len() {
                    assert(v@.skip(i as int).len() == 1);
                    assert(v@.skip(i + 1) =~= Seq::<char>::empty());
                }
            }
        }
        i = i + 1;
    }
    proof {
        assert(v@.skip(v@.len() as int) =~= Seq::<char>::empty());
        assert(out@ + Seq::<char>::empty() =~= out@);
    }
    out
}

/// No occurrence of the character `c` anywhere in `s`.
pub open spec fn no_char(s: Seq<char>, c: char) -> bool {
    forall|i: int| 0 <= i < s.len() ==> s[i] != c
}

/// Whitespace shape of a collapsed string: every whitespace character is a
/// plain space, no two sit next to each other, and none ends the string.
pub open spec fn sq_shape(s: Seq<char>) -> bool {
    &&& forall|i: int| 0 <= i < s.len() && is_space(#[trigger] s[i]) ==> s[i] == ' '
    &&& forall|i: int| 0 < i < s.len() ==> !(is_space(s[i - 1]) && is_space(#[trigger] s[i]))
    &&& (s.len() > 0 ==> !is_space(s[s.len() - 1]))
}

/// A fully tidied string: no soft hyphens, no line breaks, and collapsed,
/// trimmed whitespace.
pub open spec fn is_tidy(s: Seq<char>) -> bool {
    &&& no_char(s, '\u{AD}')
    &&& no_char(s, '\r')
    &&& no_char(s, '\n')
    &&& sq_shape(s)
    &&& (s.len() > 0 ==> !is_space(s[0]))
}

proof fn lemma_drop_shy_no_char(s: Seq<char>, c: char)
    requires
        no_char(s, c) || c == '\u{AD}',
    ensures
        no_char(drop_soft_hyphens(s), c),
    decreases s.len(),
{
    if s.len() > 0 {
        lemma_drop_shy_no_char(s.skip(1), c);
    }
}

proof fn lemma_join_no_char(s: Seq<char>, c: char)
    requires
        no_char(s, c),
    ensures
        no_char(join_hyphen_breaks(s), c),
    decreases s.len(),
{
    if s.len() >= 2 && s[0] == '-' && s[1] == '\n' {
        lemma_join_no_char(s.skip(2), c);
    } else if s.len() > 0 {
        lemma_join_no_char(s.skip(1), c);
    }
}

proof fn lemma_breaks_no_char(s: Seq<char>, c: char)
    requires
        no_char(s, c) || c == '\r' || c == '\n',
        c != ' ',
    ensures
        no_char(breaks_to_spaces(s), c),
    decreases s.len(),
{
    if s.len() > 0 {
        lemma_breaks_no_char(s.skip(1), c);
    }
}

proof fn lemma_trim_leading_no_char(s: Seq<char>, c: char)
    requires
        no_char(s, c),
    ensures
        no_char(trim_leading(s), c),
    decreases s.len(),
{
    if s.len() > 0 && is_space(s[0]) {
        lemma_trim_leading_no_char(s.skip(1), c);
    }
}

proof fn lemma_squeeze_no_char(s: Seq<char>, c: char)
    requires
        no_char(s, c),
        c != ' ',
    ensures
        no_char(squeeze(s), c),
    decreases s.len(),
{
    if s.len() > 0 {
        lemma_squeeze_no_char(s.skip(1), c);
    }
}

/// After trimming, a non-empty string starts with a non-space character.
proof fn lemma_trim_leading_head(s: Seq<char>)
    ensures
        trim_leading(s).len() > 0 ==> !is_space(trim_leading(s)[0]),
    decreases s.len(),
{
    if s.len() > 0 && is_space(s[0]) {
        lemma_trim_leading_head(s.skip(1));
    }
}

/// The collapse core always yields the collapsed whitespace shape, and it
/// keeps a non-space head in place.
proof fn lemma_squeeze_shape(s: Seq<char>)
    ensures
        sq_shape(squeeze(s)),
        s.len() > 0 && !is_space(s[0]) ==> squeeze(s).len() > 0 && squeeze(s)[0] == s[0],
    decreases s.len(),
{
    if s.len() == 0 {
    } else {
        lemma_squeeze_shape(s.skip(1));
        let rest = squeeze(s.skip(1));
        if !is_space(s[0]) {
            let out = seq![s[0]] + rest;
            assert forall|i: int| 0 < i < out.len() implies !(is_space(out[i - 1]) && is_space(
                #[trigger] out[i],
            )) by {
                if i > 1 {
                    assert(out[i - 1] == rest[i - 2]);
                    assert(out[i] == rest[i - 1]);
                }
            }
            assert(out.len() > 0 && !is_space(out[out.len() - 1]));
        } else if s.len() == 1 {
        } else if is_space(s[1]) {
        } else {
            assert(s.skip(1)[0] == s[1]);
            let out = seq![' '] + rest;
            assert(rest.len() > 0 && rest[0] == s[1]);
            assert forall|i: int| 0 < i < out.len() implies !(is_space(out[i - 1]) && is_space(
                #[trigger] out[i],
            )) by {
                if i > 1 {
                    assert(out[i - 1] == rest[i - 2]);
                    assert(out[i] == rest[i - 1]);
                } else {
                    assert(out[1] == rest[0]);
                }
            }
            assert(out.len() > 0 && !is_space(out[out.len() - 1]));
        }
    }
}

proof fn lemma_drop_shy_id(s: Seq<char>)
    requires
        no_char(s, '\u{AD}'),
    ensures
        drop_soft_hyphens(s) == s,
    decreases s.len(),
{
    if s.len() == 0 {
        assert(s =~= Seq::<char>::empty());
    } else {
        lemma_drop_shy_id(s.skip(1));
        assert(seq![s[0]] + s.skip(1) =~= s);
    }
}

proof fn lemma_join_id(s: Seq<char>)
    requires
        no_char(s, '\n'),
    ensures
        join_hyphen_breaks(s) == s,
    decreases s.len(),
{
    if s.len() == 0 {
        assert(s =~= Seq::<char>::empty());
    } else {
        lemma_join_id(s.skip(1));
        assert(seq![s[0]] + s.skip(1) =~= s);
    }
}

proof fn lemma_breaks_id(s: Seq<char>)
    requires
        no_char(s, '\r'),
        no_char(s, '\n'),
    ensures
        breaks_to_spaces(s) == s,
    decreases s.len(),
{
    if s.len() == 0 {
        assert(s =~= Seq::<char>::empty());
    } else {
        lemma_breaks_id(s.skip(1));
        assert(seq![s[0]] + s.skip(1) =~= s);
    }
}

proof fn lemma_sq_shape_skip1(s: Seq<char>)
    requires
        sq_shape(s),
        s.len() > 0,
    ensures
        sq_shape(s.skip(1)),
{
    let t = s.skip(1);
    assert forall|i: int| 0 <= i < t.len() && is_space(#[trigger] t[i]) implies t[i] == ' ' by {
        assert(t[i] == s[i + 1]);
    }
    assert forall|i: int| 0 < i < t.len() implies !(is_space(t[i - 1]) && is_space(
        #[trigger] t[i],
    )) by {
        assert(t[i - 1] == s[i]);
        assert(t[i] == s[i + 1]);
    }
    if t.len() > 0 {
        assert(t[t.len() - 1] == s[s.len() - 1]);
    }
}

proof fn lemma_squeeze_id(s: Seq<char>)
    requires
        sq_shape(s),
    ensures
        squeeze(s) == s,
    decreases s.len(),
{
    if s.len() == 0 {
        assert(s =~= Seq::<char>::empty());
    } else if !is_space(s[0]) {
        lemma_sq_shape_skip1(s);
        lemma_squeeze_id(s.skip(1));
        assert(seq![s[0]] + s.skip(1) =~= s);
    } else {
        assert(s.len() >= 2);
        assert(!(is_space(s[0]) && is_space(s[1])));
        lemma_sq_shape_skip1(s);
        lemma_squeeze_id(s.skip(1));
        assert(s[0] == ' ');
        assert(seq![' '] + s.skip(1) =~= s);
    }
}

/// Every output of the tidy transform is fully tidied: free of soft
/// hyphens and line breaks, single-spaced, and trimmed at both ends.
pub proof fn lemma_tidy_is_tidy(s: Seq<char>)
    ensures
        is_tidy(tidy_spec(s)),
{
    let a = drop_soft_hyphens(s);
    let b = join_hyphen_breaks(a);
    let c = breaks_to_spaces(b);
    let t0 = trim_leading(c);
    lemma_drop_shy_no_char(s, '\u{AD}');
    lemma_join_no_char(a, '\u{AD}');
    lemma_breaks_no_char(b, '\u{AD}');
    lemma_breaks_no_char(b, '\r');
    lemma_breaks_no_char(b, '\n');
    lemma_trim_leading_no_char(c, '\u{AD}');
    lemma_trim_leading_no_char(c, '\r');
    lemma_trim_leading_no_char(c, '\n');
    lemma_squeeze_no_char(t0, '\u{AD}');
    lemma_squeeze_no_char(t0, '\r');
    lemma_squeeze_no_char(t0, '\n');
    lemma_squeeze_shape(t0);
    lemma_trim_leading_head(c);
}

/// The tidy transform is idempotent: tidying already-tidied text changes
/// nothing, so running the normalization twice equals running it once.
pub proof fn lemma_tidy_idempotent(s: Seq<char>)
    ensures
        tidy_spec(tidy_spec(s)) == tidy_spec(s),
{
    let t = tidy_spec(s);
    lemma_tidy_is_tidy(s);
    lemma_drop_shy_id(t);
    lemma_join_id(t);
    lemma_breaks_id(t);
    lemma_squeeze_id(t);
}

/// Cleans raw OCR output: removes soft hyphens, joins hyphenated line
/// breaks, turns remaining breaks into spaces, and collapses whitespace.
pub fn tidy_ocr(s: &str) -> (r: String)
    ensures
        r@ == tidy_spec(s@),
{
    let cs = str_chars(s);
    let a = pass_drop_soft_hyphens(&cs);
    let b = pass_join_hyphen_breaks(&a);
    let c = pass_breaks_to_spaces(&b);
    let d = pass_collapse_spaces(&c);
    chars_to_string(&d)
}

/// The recognition result handed onward: the tidied OCR text, or the
/// terminal error when nothing readable was recognized.
pub fn recognized_text(raw: &str) -> (r: Result<String, Error>)
    ensures
        match r {
            Ok(t) => t@ == tidy_spec(raw@) && t@.len() > 0,
            Err(Error::NoTextRecognized) => tidy_spec(raw@).len() == 0,
            Err(_) => false,
        },
{
    let t = tidy_ocr(raw);
    if t.as_str().unicode_len() == 0 {
        Err(Error::NoTextRecognized)
    } else {
        Ok(t)
    }
}

/// The geometry handed back by the region selector, trimmed; an empty
/// selection is an error.
pub fn selection_geometry(raw: &str) -> (r: Result<String, Error>)
    ensures
        match r {
            Ok(g) => g@ == trim_spec(raw@) && g@.len() > 0,
            Err(Error::EmptySelection) => trim_spec(raw@).len() == 0,
            Err(_) => false,
        },
{
    let t = trim_str(raw);
    if t.unicode_len() == 0 {
        Err(Error::EmptySelection)
    } else {
        Ok(String::from_str(t))
    }
}

} // verus!
