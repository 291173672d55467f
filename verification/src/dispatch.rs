//! Routing of chat messages to registered commands.

use crate::bot::access::{no_repeats, string_views};
use crate::text::{chars_eq, chars_of, string_of};
use crate::words::{
    fields, is_white_space, law_fields_of_word, no_sep, split_fields, views, Separators,
};
use vstd::prelude::*;

verus! {

/// The word that selects the command of a message: its first
/// whitespace-separated word, if it has content and any word at all.
pub open spec fn spec_command_word(content: Option<Seq<char>>) -> Option<Seq<char>> {
    match content {
        None => None,
        Some(c) => {
            let w = fields(c, Separators::WhiteSpace);
            if w.len() == 0 {
                None
            } else {
                Some(w[0])
            }
        },
    }
}

/// Finds the word that selects the command of a message.
pub fn command_word(content: Option<&str>) -> (res: Option<String>)
    ensures
        match res {
            Some(w) => spec_command_word(
                match content {
                    Some(c) => Some(c@),
                    None => None,
                },
            ) == Some(w@),
            None => spec_command_word(
                match content {
                    Some(c) => Some(c@),
                    None => None,
                },
            ) is None,
        },
{
    match content {
        None => None,
        Some(c) => {
            let cs = chars_of(c);
            let words = split_fields(cs.as_slice(), Separators::WhiteSpace);
            if words.len() == 0 {
                None
            } else {
                assert(views(words@)[0] == words@[0]@);
                Some(string_of(words[0].as_slice()))
            }
        },
    }
}

/// The position of the first name that repeats an earlier one, if any;
/// registrations are checked in this order at start-up.
pub fn first_duplicate(names: &Vec<String>) -> (res: Option<usize>)
    ensures
        match res {
            Some(j) => j < names@.len() && no_repeats(string_views(names@).take(j as int))
                && string_views(names@).take(j as int).contains(names@[j as int]@),
            None => no_repeats(string_views(names@)),
        },
{
    let ghost sv = string_views(names@);
    let mut j: usize = 0;
    assert(sv.take(0) =~= Seq::<Seq<char>>::empty());
    while j < names.len()
        invariant
            sv == string_views(names@),
            j <= names@.len(),
            no_repeats(sv.take(j as int)),
        decreases names@.len() - j,
    {
        let cj = chars_of(names[j].as_str());
        let mut i: usize = 0;
        while i < j
            invariant
                sv == string_views(names@),
                i <= j < names@.len(),
                cj@ == sv[j as int],
                no_repeats(sv.take(j as int)),
                forall|k: int| 0 <= k < i ==> #[trigger] sv[k] != sv[j as int],
            decreases j - i,
        {
            let ci = chars_of(names[i].as_str());
            assert(ci@ == sv[i as int]);
            if chars_eq(ci.as_slice(), cj.as_slice()) {
                assert(sv.take(j as int)[i as int] == sv[j as int]);
                assert(sv[j as int] == names@[j as int]@);
                return Some(j);
            }
            i = i + 1;
        }
        let ghost t = sv.take(j + 1);
        assert(no_repeats(t)) by {
            assert forall|a: int, b: int|
                0 <= a < t.len() && 0 <= b < t.len() && a != b implies #[trigger] t[a]
                != #[trigger] t[b] by {
                assert(t[a] == sv[a] && t[b] == sv[b]);
                if a < j && b < j {
                    assert(sv.take(j as int)[a] == sv[a] && sv.take(j as int)[b] == sv[b]);
                }
            }
        }
        j = j + 1;
    }
    assert(sv.take(names@.len() as int) =~= sv);
    None
}

/// A message is routed by its first word: a word without white space,
/// followed by nothing or by white space and anything else, selects the
/// command registered under that word. A message made of the word alone
/// selects it too.
pub proof fn law_first_word_routes(w: Seq<char>, rest: Seq<char>)
    requires
        w.len() > 0,
        no_sep(w, Separators::WhiteSpace),
        rest.len() == 0 || is_white_space(rest[0]),
    ensures
        spec_command_word(Some(w + rest)) == Some(w),
{
    law_fields_of_word(w, rest, Separators::WhiteSpace);
}

} // verus!
