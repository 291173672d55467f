//! Splitting text into words and fields, trimming and lower-casing.

use crate::text::chars_of;
use vstd::prelude::*;

verus! {

/// The Unicode `White_Space` property of a character, which
/// `char::is_whitespace` tests: tab, line feed, vertical tab, form feed,
/// carriage return, space, next line (U+0085), no-break space (U+00A0),
/// ogham space mark (U+1680), the spaces U+2000 to U+200A, line separator
/// (U+2028), paragraph separator (U+2029), narrow no-break space (U+202F),
/// medium mathematical space (U+205F) and ideographic space (U+3000).
pub open spec fn is_white_space(c: char) -> bool {
    let u = c as u32;
    ||| 0x09 <= u <= 0x0D
    ||| u == 0x20
    ||| u == 0x85
    ||| u == 0xA0
    ||| u == 0x1680
    ||| 0x2000 <= u <= 0x200A
    ||| u == 0x2028
    ||| u == 0x2029
    ||| u == 0x202F
    ||| u == 0x205F
    ||| u == 0x3000
}

/// Asks `char::is_whitespace` whether `c` is white space.
///
/// Trusted: the result is the `White_Space` property as
/// `is_white_space` lists it.
#[verifier::external_body]
pub(crate) fn char_is_whitespace(c: char) -> (res: bool)
    ensures
        res == is_white_space(c),
{
    c.is_whitespace()
}

/// The Unicode lower-case mapping of a string, as `str::to_lowercase`
/// computes it.
pub uninterp spec fn unicode_lowercase(s: Seq<char>) -> Seq<char>;

/// The ASCII lower-case of a character: `A` to `Z` become `a` to `z`, all
/// others stay.
pub open spec fn ascii_lower(c: char) -> char {
    if 'A' <= c && c <= 'Z' {
        ((c as u32) + 32) as char
    } else {
        c
    }
}

/// Every character of `s` is ASCII.
pub open spec fn all_ascii(s: Seq<char>) -> bool {
    forall|i: int| 0 <= i < s.len() ==> (#[trigger] s[i] as u32) < 128
}

/// The lower-case form of `s` as `str::to_lowercase` gives it: character by
/// character for ASCII text, the Unicode mapping otherwise.
pub open spec fn lowercase(s: Seq<char>) -> Seq<char> {
    if all_ascii(s) {
        s.map_values(|c: char| ascii_lower(c))
    } else {
        unicode_lowercase(s)
    }
}

/// Lower-cases `s` with `str::to_lowercase`.
///
/// Trusted: the result is named `unicode_lowercase(s)`; of the Unicode case
/// mapping the contract states only that a string of ASCII characters is
/// lower-cased character by character, `A` to `Z` becoming `a` to `z`.
#[verifier::external_body]
pub(crate) fn to_lowercase(s: &str) -> (res: String)
    ensures
        res@ == unicode_lowercase(s@),
        all_ascii(s@) ==> res@ == s@.map_values(|c: char| ascii_lower(c)),
{
    s.to_lowercase()
}

/// How a text is cut into fields.
#[derive(Clone, Copy, PartialEq, Eq, Debug)]
pub enum Separators {
    /// At white space only, as `split_whitespace` does.
    WhiteSpace,
    /// At `,`, `;` and white space, as list settings are written.
    ListPunctuation,
}

/// Whether `c` separates fields under `seps`.
pub open spec fn is_sep(seps: Separators, c: char) -> bool {
    match seps {
        Separators::WhiteSpace => is_white_space(c),
        Separators::ListPunctuation => c == ',' || c == ';' || is_white_space(c),
    }
}

/// Decides whether `c` separates fields under `seps`.
pub fn is_sep_exec(seps: Separators, c: char) -> (res: bool)
    ensures
        res == is_sep(seps, c),
{
    match seps {
        Separators::WhiteSpace => char_is_whitespace(c),
        Separators::ListPunctuation => c == ',' || c == ';' || char_is_whitespace(c),
    }
}

/// The longest prefix of `s` without a separator.
pub open spec fn first_field(s: Seq<char>, seps: Separators) -> Seq<char>
    decreases s.len(),
{
    if s.len() == 0 || is_sep(seps, s[0]) {
        seq![]
    } else {
        seq![s[0]] + first_field(s.drop_first(), seps)
    }
}

/// The non-empty maximal runs of non-separator characters of `s`, in order.
pub open spec fn fields(s: Seq<char>, seps: Separators) -> Seq<Seq<char>>
    decreases s.len(), 1int,
{
    if s.len() == 0 {
        seq![]
    } else if is_sep(seps, s[0]) {
        fields(s.drop_first(), seps)
    } else {
        let w = first_field(s, seps);
        proof {
            lemma_first_field_len(s, seps);
        }
        seq![w] + fields(s.skip(w.len() as int), seps)
    }
}

/// A first field is a non-empty prefix when `s` starts with a non-separator.
pub proof fn lemma_first_field_len(s: Seq<char>, seps: Separators)
    ensures
        first_field(s, seps).len() <= s.len(),
        s.len() > 0 && !is_sep(seps, s[0]) ==> first_field(s, seps).len() > 0,
        first_field(s, seps) == s.subrange(0, first_field(s, seps).len() as int),
        forall|k: int|
            0 <= k < first_field(s, seps).len() ==> !is_sep(seps, #[trigger] s[k]),
        first_field(s, seps).len() < s.len() ==> is_sep(seps, s[first_field(s, seps).len() as int]),
    decreases s.len(),
{
    if s.len() > 0 && !is_sep(seps, s[0]) {
        let rest = s.drop_first();
        lemma_first_field_len(rest, seps);
        let f = first_field(s, seps);
        assert(f == seq![s[0]] + first_field(rest, seps));
        assert forall|k: int| 0 <= k < f.len() implies !is_sep(seps, #[trigger] s[k]) by {
            if k > 0 {
                assert(s[k] == rest[k - 1]);
            }
        }
        assert(f =~= s.subrange(0, f.len() as int));
    }
}

/// The views of a list of character vectors.
pub open spec fn views(v: Seq<Vec<char>>) -> Seq<Seq<char>> {
    v.map_values(|w: Vec<char>| w@)
}

/// Cuts `s` into its fields under `seps`.
pub fn split_fields(s: &[char], seps: Separators) -> (res: Vec<Vec<char>>)
    ensures
        views(res@) == fields(s@, seps),
{
    let mut res: Vec<Vec<char>> = Vec::new();
    let mut i: usize = 0;
    assert(s@.skip(0) =~= s@);
    while i < s.len()
        invariant
            i <= s@.len(),
            fields(s@, seps) == views(res@) + fields(s@.skip(i as int), seps),
        decreases s@.len() - i,
    {
        let ghost rest = s@.skip(i as int);
        if is_sep_exec(seps, s[i]) {
            assert(rest.drop_first() =~= s@.skip(i + 1));
            i = i + 1;
        } else {
            let mut w: Vec<char> = Vec::new();
            let mut j: usize = i;
            while j < s.len() && !is_sep_exec(seps, s[j])
                invariant
                    i <= j <= s@.len(),
                    w@ == s@.subrange(i as int, j as int),
                    forall|k: int| i <= k < j ==> !is_sep(seps, #[trigger] s@[k]),
                decreases s@.len() - j,
            {
                w.push(s[j]);
                j = j + 1;
                assert(w@ =~= s@.subrange(i as int, j as int));
            }
            proof {
                lemma_first_field_len(rest, seps);
                let f = first_field(rest, seps);
                let n = (j - i) as int;
                if f.len() < n {
                    assert(is_sep(seps, rest[f.len() as int]));
                    assert(rest[f.len() as int] == s@[i + f.len()]);
                }
                if f.len() > n {
                    assert(!is_sep(seps, rest[n]));
                    assert(rest[n] == s@[j as int]);
                }
                assert(f.len() == n);
                assert(f =~= w@);
                assert(rest.skip(n) =~= s@.skip(j as int));
            }
            let ghost before = res@;
            res.push(w);
            assert(views(res@) =~= views(before) + seq![views(res@).last()]);
            i = j;
        }
    }
    assert(s@.skip(i as int).len() == 0);
    assert(views(res@) + Seq::<Seq<char>>::empty() =~= views(res@));
    res
}

/// `s` without the white space at its end.
pub open spec fn trim_end_ws(s: Seq<char>) -> Seq<char>
    decreases s.len(),
{
    if s.len() > 0 && is_white_space(s.last()) {
        trim_end_ws(s.drop_last())
    } else {
        s
    }
}

/// `s` without the white space at its start.
pub open spec fn trim_start_ws(s: Seq<char>) -> Seq<char>
    decreases s.len(),
{
    if s.len() > 0 && is_white_space(s[0]) {
        trim_start_ws(s.drop_first())
    } else {
        s
    }
}

/// `s` without white space at either end, as `str::trim` gives it.
pub open spec fn trim(s: Seq<char>) -> Seq<char> {
    trim_start_ws(trim_end_ws(s))
}

/// No character of `w` separates fields under `seps`.
pub open spec fn no_sep(w: Seq<char>, seps: Separators) -> bool {
    forall|i: int| 0 <= i < w.len() ==> !is_sep(seps, #[trigger] w[i])
}

/// A run of non-separators followed by the end or a separator is the first
/// field.
proof fn lemma_first_field_of_word(w: Seq<char>, rest: Seq<char>, seps: Separators)
    requires
        no_sep(w, seps),
        rest.len() == 0 || is_sep(seps, rest[0]),
    ensures
        first_field(w + rest, seps) == w,
    decreases w.len(),
{
    if w.len() == 0 {
        assert(w + rest =~= rest);
    } else {
        assert((w + rest)[0] == w[0]);
        assert((w + rest).drop_first() =~= w.drop_first() + rest);
        assert(no_sep(w.drop_first(), seps)) by {
            assert forall|i: int| 0 <= i < w.drop_first().len() implies !is_sep(
                seps,
                #[trigger] w.drop_first()[i],
            ) by {
                assert(w.drop_first()[i] == w[i + 1]);
            }
        }
        lemma_first_field_of_word(w.drop_first(), rest, seps);
        assert(seq![w[0]] + w.drop_first() =~= w);
    }
}

/// A non-empty word followed by the end or a separator is the first field,
/// and the fields of the rest follow it.
pub proof fn law_fields_of_word(w: Seq<char>, rest: Seq<char>, seps: Separators)
    requires
        w.len() > 0,
        no_sep(w, seps),
        rest.len() == 0 || is_sep(seps, rest[0]),
    ensures
        fields(w + rest, seps) == seq![w] + fields(rest, seps),
{
    let s = w + rest;
    assert(s[0] == w[0]);
    lemma_first_field_of_word(w, rest, seps);
    assert(s.skip(w.len() as int) =~= rest);
}

/// A leading separator adds no field.
pub proof fn law_fields_skip_separator(c: char, rest: Seq<char>, seps: Separators)
    requires
        is_sep(seps, c),
    ensures
        fields(seq![c] + rest, seps) == fields(rest, seps),
{
    assert((seq![c] + rest)[0] == c);
    assert((seq![c] + rest).drop_first() =~= rest);
}

/// Text that starts and ends with a non-white-space character is left as it
/// is by trimming.
pub proof fn law_trim_keeps_inner_text(s: Seq<char>)
    requires
        s.len() > 0,
        !is_white_space(s[0]),
        !is_white_space(s.last()),
    ensures
        trim(s) == s,
{
}

/// Removes the white space at both ends of `s`.
pub fn trim_exec(s: &[char]) -> (res: Vec<char>)
    ensures
        res@ == trim(s@),
{
    let mut end = s.len();
    assert(s@.take(end as int) =~= s@);
    while end > 0 && char_is_whitespace(s[end - 1])
        invariant
            end <= s@.len(),
            trim_end_ws(s@) == trim_end_ws(s@.take(end as int)),
        decreases end,
    {
        assert(s@.take(end as int).drop_last() =~= s@.take(end - 1));
        end = end - 1;
    }
    let ghost t = s@.take(end as int);
    assert(trim_end_ws(t) == t);
    let mut start: usize = 0;
    assert(t.skip(0) =~= t);
    while start < end && char_is_whitespace(s[start])
        invariant
            start <= end <= s@.len(),
            t == s@.take(end as int),
            trim_start_ws(t) == trim_start_ws(t.skip(start as int)),
        decreases end - start,
    {
        assert(t.skip(start as int).drop_first() =~= t.skip(start + 1));
        start = start + 1;
    }
    assert(trim_start_ws(t.skip(start as int)) == t.skip(start as int));
    let mut out: Vec<char> = Vec::new();
    let mut k: usize = start;
    while k < end
        invariant
            start <= k <= end <= s@.len(),
            out@ == s@.subrange(start as int, k as int),
        decreases end - k,
    {
        out.push(s[k]);
        k = k + 1;
        assert(out@ =~= s@.subrange(start as int, k as int));
    }
    assert(t.skip(start as int) =~= s@.subrange(start as int, end as int));
    out
}

/// The whitespace-separated words of a string.
pub fn split_whitespace(s: &str) -> (res: Vec<Vec<char>>)
    ensures
        views(res@) == fields(s@, Separators::WhiteSpace),
{
    let c = chars_of(s);
    split_fields(c.as_slice(), Separators::WhiteSpace)
}

} // verus!
