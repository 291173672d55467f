//! An allow list and a deny list of user open ids.

use crate::text::{chars_eq, chars_of, string_of};
use crate::words::{fields, split_fields, views, Separators};
use vstd::prelude::*;

verus! {

/// The set of entries of a list setting: the fields of `raw` separated by
/// `,`, `;` or white space. Each field holds no white space, so trimming it
/// changes nothing, and no field is empty.
pub open spec fn spec_parse_list(raw: Seq<char>) -> Set<Seq<char>> {
    fields(raw, Separators::ListPunctuation).to_set()
}

/// The views of a list of strings.
pub open spec fn string_views(v: Seq<String>) -> Seq<Seq<char>> {
    v.map_values(|s: String| s@)
}

/// No string occurs twice.
pub open spec fn no_repeats(v: Seq<Seq<char>>) -> bool {
    forall|i: int, j: int|
        0 <= i < v.len() && 0 <= j < v.len() && i != j ==> #[trigger] v[i] != #[trigger] v[j]
}

/// Whether `s` is one of the strings of `v`.
fn list_contains(v: &Vec<String>, s: &[char]) -> (res: bool)
    ensures
        res == string_views(v@).contains(s@),
{
    let ghost sv = string_views(v@);
    let mut i: usize = 0;
    while i < v.len()
        invariant
            sv == string_views(v@),
            i <= v@.len(),
            forall|j: int| 0 <= j < i ==> #[trigger] sv[j] != s@,
        decreases v@.len() - i,
    {
        let c = chars_of(v[i].as_str());
        assert(sv[i as int] == v@[i as int]@);
        if chars_eq(c.as_slice(), s) {
            assert(sv[i as int] == s@);
            return true;
        }
        i = i + 1;
    }
    assert(!sv.contains(s@)) by {
        if sv.contains(s@) {
            let j = choose|j: int| 0 <= j < sv.len() && sv[j] == s@;
            assert(sv[j] != s@);
        }
    }
    false
}

/// The distinct entries of a list setting.
pub fn parse_list(raw: &str) -> (res: Vec<String>)
    ensures
        string_views(res@).to_set() == spec_parse_list(raw@),
        no_repeats(string_views(res@)),
{
    let c = chars_of(raw);
    let parts = split_fields(c.as_slice(), Separators::ListPunctuation);
    let ghost ps = views(parts@);
    let mut out: Vec<String> = Vec::new();
    let mut i: usize = 0;
    while i < parts.len()
        invariant
            ps == views(parts@),
            i <= parts@.len(),
            string_views(out@).to_set() == ps.take(i as int).to_set(),
            no_repeats(string_views(out@)),
        decreases parts@.len() - i,
    {
        let ghost before = string_views(out@);
        let ghost t0 = ps.take(i as int);
        let ghost t1 = ps.take(i + 1);
        assert(ps[i as int] == parts@[i as int]@);
        assert(t1 =~= t0.push(ps[i as int]));
        if !list_contains(&out, parts[i].as_slice()) {
            out.push(string_of(parts[i].as_slice()));
            let ghost after = string_views(out@);
            assert(after =~= before.push(ps[i as int]));
            assert(no_repeats(after)) by {
                assert forall|a: int, b: int|
                    0 <= a < after.len() && 0 <= b < after.len() && a != b implies #[trigger] after[a]
                    != #[trigger] after[b] by {
                    if a < before.len() && b < before.len() {
                        assert(after[a] == before[a] && after[b] == before[b]);
                    } else if a < before.len() {
                        assert(after[a] == before[a]);
                        assert(before.contains(after[a]));
                    } else {
                        assert(after[b] == before[b]);
                        assert(before.contains(after[b]));
                    }
                }
            }
            assert(after.to_set() =~= t1.to_set()) by {
                assert forall|x: Seq<char>| after.to_set().contains(x) <==> t1.to_set().contains(x) by {
                    if after.contains(x) {
                        let a = choose|a: int| 0 <= a < after.len() && #[trigger] after[a] == x;
                        if a < before.len() {
                            assert(before[a] == x);
                            assert(before.to_set().contains(x));
                            assert(t0.to_set().contains(x));
                            let b = choose|b: int| 0 <= b < t0.len() && #[trigger] t0[b] == x;
                            assert(t1[b] == x);
                        } else {
                            assert(t1[i as int] == x);
                        }
                    }
                    if t1.contains(x) {
                        let b = choose|b: int| 0 <= b < t1.len() && #[trigger] t1[b] == x;
                        if b < i {
                            assert(t0[b] == x);
                            assert(t0.to_set().contains(x));
                            assert(before.to_set().contains(x));
                            let a = choose|a: int| 0 <= a < before.len() && #[trigger] before[a] == x;
                            assert(after[a] == x);
                        } else {
                            assert(after[before.len() as int] == x);
                        }
                    }
                }
            }
        } else {
            assert(t1.to_set() =~= t0.to_set()) by {
                assert forall|x: Seq<char>| t1.to_set().contains(x) <==> t0.to_set().contains(x) by {
                    if t1.contains(x) {
                        let b = choose|b: int| 0 <= b < t1.len() && #[trigger] t1[b] == x;
                        if b < i {
                            assert(t0[b] == x);
                        } else {
                            assert(before.contains(x));
                            assert(before.to_set().contains(x));
                        }
                    }
                    if t0.contains(x) {
                        let b = choose|b: int| 0 <= b < t0.len() && #[trigger] t0[b] == x;
                        assert(t1[b] == x);
                    }
                }
            }
        }
        i = i + 1;
    }
    assert(ps.take(ps.len() as int) =~= ps);
    out
}

/// An id is allowed unless it is denied; when the allow list is not empty it
/// must also be on it.
pub open spec fn spec_allowed(allow: Set<Seq<char>>, deny: Set<Seq<char>>, id: Seq<char>) -> bool {
    !deny.contains(id) && (allow.is_empty() || allow.contains(id))
}

/// Decides which users may use the bot.
#[derive(Clone)]
pub struct AccessControl {
    allowlist: Vec<String>,
    denylist: Vec<String>,
}

impl AccessControl {
    /// The ids on the allow list.
    pub closed spec fn allow_set(&self) -> Set<Seq<char>> {
        string_views(self.allowlist@).to_set()
    }

    /// The ids on the deny list.
    pub closed spec fn deny_set(&self) -> Set<Seq<char>> {
        string_views(self.denylist@).to_set()
    }

    /// The lists written in the two settings.
    pub fn from_lists(allow_raw: &str, deny_raw: &str) -> (res: Self)
        ensures
            res.allow_set() == spec_parse_list(allow_raw@),
            res.deny_set() == spec_parse_list(deny_raw@),
    {
        AccessControl { allowlist: parse_list(allow_raw), denylist: parse_list(deny_raw) }
    }

    /// Whether the user with `openid` may use the bot: the deny list wins,
    /// and an empty allow list allows everyone else.
    pub fn allowed(&self, openid: &str) -> (res: bool)
        ensures
            res == spec_allowed(self.allow_set(), self.deny_set(), openid@),
    {
        let id = chars_of(openid);
        if list_contains(&self.denylist, id.as_slice()) {
            return false;
        }
        if self.allowlist.len() == 0 {
            assert(string_views(self.allowlist@) =~= Seq::<Seq<char>>::empty());
            assert(self.allow_set() =~= Set::<Seq<char>>::empty());
            return true;
        }
        assert(self.allow_set().contains(string_views(self.allowlist@)[0]));
        list_contains(&self.allowlist, id.as_slice())
    }
}

/// A denied id is never allowed, whatever the allow list says.
pub proof fn law_deny_wins(allow: Set<Seq<char>>, deny: Set<Seq<char>>, id: Seq<char>)
    requires
        deny.contains(id),
    ensures
        !spec_allowed(allow, deny, id),
{
}

/// With an empty allow list, every id that is not denied is allowed.
pub proof fn law_empty_allowlist_allows(deny: Set<Seq<char>>, id: Seq<char>)
    requires
        !deny.contains(id),
    ensures
        spec_allowed(Set::empty(), deny, id),
{
}

} // verus!
