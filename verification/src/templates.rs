//! Why the official path templates always render: a template is a run of
//! literal pieces without `{` and placeholders; filling a placeholder with an
//! encoded value, which holds no brace, keeps that shape, so every key finds
//! its placeholder and none is left at the end.

use crate::encoding::{encode_str, is_encoded_char, lemma_encoded_chars_are_safe};
use crate::openapi::{is_official, placeholder, spec_render_path, OpenApiPaths};
use crate::text::{occurs_at, replace_all, seq_contains};
use vstd::prelude::*;

verus! {


/// `s` holds no `{`.
pub open spec fn no_open_brace(s: Seq<char>) -> bool {
    forall|i: int| 0 <= i < s.len() ==> s[i] != '{'
}

/// `s` can name a placeholder: it holds neither `{` nor `}`.
pub open spec fn is_key_text(s: Seq<char>) -> bool {
    forall|i: int| 0 <= i < s.len() ==> s[i] != '{' && s[i] != '}'
}

/// The text of a template piece: a literal, or the placeholder of a key.
pub open spec fn piece_text(p: (bool, Seq<char>)) -> Seq<char> {
    if p.0 {
        placeholder(p.1)
    } else {
        p.1
    }
}

/// The text of a sequence of template pieces.
pub open spec fn flat(ps: Seq<(bool, Seq<char>)>) -> Seq<char>
    decreases ps.len(),
{
    if ps.len() == 0 {
        seq![]
    } else {
        piece_text(ps[0]) + flat(ps.drop_first())
    }
}

/// Literals hold no `{`, and placeholder keys neither `{` nor `}`.
pub open spec fn pieces_wf(ps: Seq<(bool, Seq<char>)>) -> bool {
    forall|i: int|
        0 <= i < ps.len() ==> (if (#[trigger] ps[i]).0 {
            is_key_text(ps[i].1)
        } else {
            no_open_brace(ps[i].1)
        })
}

/// The pieces with every placeholder of `k` replaced by the literal `r`.
pub open spec fn fill(ps: Seq<(bool, Seq<char>)>, k: Seq<char>, r: Seq<char>) -> Seq<(bool, Seq<char>)> {
    ps.map_values(
        |p: (bool, Seq<char>)|
            if p.0 && p.1 == k {
                (false, r)
            } else {
                p
            },
    )
}

proof fn lemma_replace_skips_literal(a: Seq<char>, b: Seq<char>, pat: Seq<char>, r: Seq<char>)
    requires
        no_open_brace(a),
        pat.len() > 0,
        pat[0] == '{',
    ensures
        replace_all(a + b, pat, r) == a + replace_all(b, pat, r),
    decreases a.len(),
{
    if a.len() == 0 {
        assert(a + b =~= b);
    } else {
        assert((a + b)[0] == a[0]);
        assert(!occurs_at(a + b, pat, 0)) by {
            if occurs_at(a + b, pat, 0) {
                assert((a + b).subrange(0, pat.len() as int)[0] == pat[0]);
            }
        }
        assert((a + b).drop_first() =~= a.drop_first() + b);
        lemma_replace_skips_literal(a.drop_first(), b, pat, r);
        assert(seq![a[0]] + (a.drop_first() + replace_all(b, pat, r)) =~= a + replace_all(b, pat, r));
    }
}

proof fn lemma_replace_at_front(b: Seq<char>, pat: Seq<char>, r: Seq<char>)
    requires
        pat.len() > 0,
    ensures
        replace_all(pat + b, pat, r) == r + replace_all(b, pat, r),
{
    assert((pat + b).subrange(0, pat.len() as int) =~= pat);
    assert((pat + b).skip(pat.len() as int) =~= b);
}

proof fn lemma_other_placeholder(h: Seq<char>, k: Seq<char>, b: Seq<char>, r: Seq<char>)
    requires
        is_key_text(h),
        is_key_text(k),
        h != k,
    ensures
        replace_all(placeholder(h) + b, placeholder(k), r) == placeholder(h) + replace_all(b, placeholder(k), r),
{
    let s = placeholder(h) + b;
    let pk = placeholder(k);
    let ph = placeholder(h);
    assert(!occurs_at(s, pk, 0)) by {
        if occurs_at(s, pk, 0) {
            let sub = s.subrange(0, pk.len() as int);
            let kl = k.len() as int;
            let hl = h.len() as int;
            if kl < hl {
                assert(sub[kl + 1] == pk[kl + 1]);
                assert(s[kl + 1] == h[kl]);
            } else if kl > hl {
                assert(sub[hl + 1] == pk[hl + 1]);
                assert(s[hl + 1] == '}');
                assert(pk[hl + 1] == k[hl]);
            } else {
                assert forall|i: int| 0 <= i < k.len() implies h[i] == k[i] by {
                    assert(sub[i + 1] == pk[i + 1]);
                    assert(s[i + 1] == h[i]);
                }
                assert(h =~= k);
            }
        }
    }
    let tail = h + seq!['}'];
    assert(no_open_brace(tail));
    assert(s.drop_first() =~= tail + b);
    lemma_replace_skips_literal(tail, b, pk, r);
    assert(seq![s[0]] + (tail + replace_all(b, pk, r)) =~= ph + replace_all(b, pk, r));
}

proof fn lemma_fill_step(ps: Seq<(bool, Seq<char>)>, k: Seq<char>, r: Seq<char>)
    requires
        pieces_wf(ps),
        is_key_text(k),
    ensures
        replace_all(flat(ps), placeholder(k), r) == flat(fill(ps, k, r)),
    decreases ps.len(),
{
    let pk = placeholder(k);
    if ps.len() == 0 {
        assert(fill(ps, k, r) =~= ps);
    } else {
        let rest = ps.drop_first();
        assert(pieces_wf(rest)) by {
            assert forall|i: int| 0 <= i < rest.len() implies (if (#[trigger] rest[i]).0 {
                is_key_text(rest[i].1)
            } else {
                no_open_brace(rest[i].1)
            }) by {
                assert(rest[i] == ps[i + 1]);
            }
        }
        lemma_fill_step(rest, k, r);
        let f = fill(ps, k, r);
        assert(f.drop_first() =~= fill(rest, k, r));
        assert(ps[0] == ps[0]);
        let p = ps[0];
        if p.0 && p.1 == k {
            lemma_replace_at_front(flat(rest), pk, r);
            assert(f[0] == (false, r));
        } else if p.0 {
            lemma_other_placeholder(p.1, k, flat(rest), r);
            assert(f[0] == p);
        } else {
            lemma_replace_skips_literal(p.1, flat(rest), pk, r);
            assert(f[0] == p);
        }
    }
}

proof fn lemma_hole_found(ps: Seq<(bool, Seq<char>)>, i: int, k: Seq<char>)
    requires
        0 <= i < ps.len(),
        ps[i] == (true, k),
    ensures
        seq_contains(flat(ps), placeholder(k)),
    decreases ps.len(),
{
    let pk = placeholder(k);
    let rest = ps.drop_first();
    if i == 0 {
        assert(flat(ps).subrange(0, pk.len() as int) =~= pk);
        assert(occurs_at(flat(ps), pk, 0));
    } else {
        assert(rest[i - 1] == ps[i]);
        lemma_hole_found(rest, i - 1, k);
        let j = choose|j: int| occurs_at(flat(rest), pk, j);
        let a = piece_text(ps[0]);
        assert(flat(ps).subrange(a.len() + j, a.len() + j + pk.len()) =~= flat(rest).subrange(j, j + pk.len()));
        assert(occurs_at(flat(ps), pk, a.len() + j));
    }
}

proof fn lemma_encoded_no_brace(v: Seq<char>)
    ensures
        no_open_brace(encode_str(v)),
{
    lemma_encoded_chars_are_safe(vstd::utf8::encode_utf8(v));
    assert forall|i: int| 0 <= i < encode_str(v).len() implies encode_str(v)[i] != '{' by {
        assert(is_encoded_char(encode_str(v)[i]));
    }
}


/// Some piece of `ps` is the placeholder of `k`.
pub open spec fn has_hole(ps: Seq<(bool, Seq<char>)>, k: Seq<char>) -> bool {
    exists|i: int| 0 <= i < ps.len() && ps[i] == (true, k)
}

/// The pieces after filling the placeholders of each parameter in turn with
/// its encoded value.
pub open spec fn fill_all(ps: Seq<(bool, Seq<char>)>, params: Seq<(Seq<char>, Seq<char>)>) -> Seq<
    (bool, Seq<char>),
>
    decreases params.len(),
{
    if params.len() == 0 {
        ps
    } else {
        fill_all(fill(ps, params[0].0, encode_str(params[0].1)), params.drop_first())
    }
}

proof fn lemma_render_pieces(ps: Seq<(bool, Seq<char>)>, params: Seq<(Seq<char>, Seq<char>)>)
    requires
        pieces_wf(ps),
        forall|j: int| 0 <= j < params.len() ==> is_key_text(#[trigger] params[j].0),
        forall|j1: int, j2: int|
            0 <= j1 < params.len() && 0 <= j2 < params.len() && j1 != j2 ==> #[trigger] params[j1].0
                != #[trigger] params[j2].0,
        forall|j: int| 0 <= j < params.len() ==> has_hole(ps, #[trigger] params[j].0),
    ensures
        spec_render_path(flat(ps), params) == Ok::<Seq<char>, Seq<char>>(flat(fill_all(ps, params))),
        pieces_wf(fill_all(ps, params)),
        fill_all(ps, params).len() == ps.len(),
        forall|i: int|
            0 <= i < ps.len() && (#[trigger] fill_all(ps, params)[i]).0 ==> fill_all(ps, params)[i]
                == ps[i],
        forall|i: int, j: int|
            0 <= i < ps.len() && 0 <= j < params.len() && (#[trigger] fill_all(ps, params)[i]).0
                ==> fill_all(ps, params)[i].1 != #[trigger] params[j].0,
    decreases params.len(),
{
    if params.len() > 0 {
        let k = params[0].0;
        let r = encode_str(params[0].1);
        let q = fill(ps, k, r);
        let rest = params.drop_first();
        assert(is_key_text(k));
        let i0 = choose|i: int| 0 <= i < ps.len() && ps[i] == (true, k);
        lemma_hole_found(ps, i0, k);
        lemma_fill_step(ps, k, r);
        lemma_encoded_no_brace(params[0].1);
        assert(pieces_wf(q)) by {
            assert forall|i: int| 0 <= i < q.len() implies (if (#[trigger] q[i]).0 {
                is_key_text(q[i].1)
            } else {
                no_open_brace(q[i].1)
            }) by {
                assert(q[i] == (if ps[i].0 && ps[i].1 == k { (false, r) } else { ps[i] }));
            }
        }
        assert forall|j: int| 0 <= j < rest.len() implies has_hole(q, #[trigger] rest[j].0) by {
            assert(rest[j] == params[j + 1]);
            assert(has_hole(ps, params[j + 1].0));
            let i = choose|i: int| 0 <= i < ps.len() && ps[i] == (true, params[j + 1].0);
            assert(params[j + 1].0 != params[0].0);
            assert(q[i] == ps[i]);
        }
        assert forall|j: int| 0 <= j < rest.len() implies is_key_text(#[trigger] rest[j].0) by {
            assert(rest[j] == params[j + 1]);
        }
        assert forall|j1: int, j2: int|
            0 <= j1 < rest.len() && 0 <= j2 < rest.len() && j1 != j2 implies #[trigger] rest[j1].0
                != #[trigger] rest[j2].0 by {
            assert(rest[j1] == params[j1 + 1]);
            assert(rest[j2] == params[j2 + 1]);
        }
        lemma_render_pieces(q, rest);
        let f = fill_all(ps, params);
        assert(f == fill_all(q, rest));
        assert forall|i: int| 0 <= i < ps.len() && (#[trigger] f[i]).0 implies f[i] == ps[i] by {
            assert(f[i] == q[i]);
            assert(q[i] == (if ps[i].0 && ps[i].1 == k { (false, r) } else { ps[i] }));
        }
        assert forall|i: int, j: int|
            0 <= i < ps.len() && 0 <= j < params.len() && (#[trigger] f[i]).0 implies f[i].1
                != #[trigger] params[j].0 by {
            assert(f[i] == q[i]);
            assert(q[i] == (if ps[i].0 && ps[i].1 == k { (false, r) } else { ps[i] }));
            if j > 0 {
                assert(rest[j - 1] == params[j]);
            }
        }
    }
}

proof fn lemma_flat_no_brace(ps: Seq<(bool, Seq<char>)>)
    requires
        pieces_wf(ps),
        forall|i: int| 0 <= i < ps.len() ==> !(#[trigger] ps[i]).0,
    ensures
        no_open_brace(flat(ps)),
    decreases ps.len(),
{
    if ps.len() > 0 {
        let rest = ps.drop_first();
        assert forall|i: int| 0 <= i < rest.len() implies (if (#[trigger] rest[i]).0 {
            is_key_text(rest[i].1)
        } else {
            no_open_brace(rest[i].1)
        }) by {
            assert(rest[i] == ps[i + 1]);
        }
        assert forall|i: int| 0 <= i < rest.len() implies !(#[trigger] rest[i]).0 by {
            assert(rest[i] == ps[i + 1]);
        }
        lemma_flat_no_brace(rest);
        assert(!ps[0].0);
        let a = ps[0].1;
        assert forall|i: int| 0 <= i < flat(ps).len() implies flat(ps)[i] != '{' by {
            if i < a.len() {
                assert(flat(ps)[i] == a[i]);
            } else {
                assert(flat(ps)[i] == flat(rest)[i - a.len()]);
            }
        }
    }
}

/// The parameters pairing each key with the value at the same position.
pub open spec fn pair_up(keys: Seq<Seq<char>>, values: Seq<Seq<char>>) -> Seq<(Seq<char>, Seq<char>)> {
    Seq::new(keys.len(), |i: int| (keys[i], values[i]))
}

/// Whatever values fill the placeholders of `keys`, the template renders,
/// and the rendered path holds no `{`: no placeholder is left.
pub open spec fn renders_cleanly(template: Seq<char>, keys: Seq<Seq<char>>) -> bool {
    forall|values: Seq<Seq<char>>|
        values.len() == keys.len() ==> (#[trigger] spec_render_path(template, pair_up(keys, values)) matches Ok(
            r,
        ) && no_open_brace(r))
}

proof fn lemma_pieces_render_cleanly(ps: Seq<(bool, Seq<char>)>, keys: Seq<Seq<char>>)
    requires
        pieces_wf(ps),
        forall|j: int| 0 <= j < keys.len() ==> is_key_text(#[trigger] keys[j]),
        forall|j1: int, j2: int|
            0 <= j1 < keys.len() && 0 <= j2 < keys.len() && j1 != j2 ==> #[trigger] keys[j1]
                != #[trigger] keys[j2],
        forall|j: int| 0 <= j < keys.len() ==> has_hole(ps, #[trigger] keys[j]),
        forall|i: int| 0 <= i < ps.len() && (#[trigger] ps[i]).0 ==> keys.contains(ps[i].1),
    ensures
        renders_cleanly(flat(ps), keys),
{
    assert forall|values: Seq<Seq<char>>| values.len() == keys.len() implies (
    #[trigger] spec_render_path(flat(ps), pair_up(keys, values)) matches Ok(r) && no_open_brace(r)) by {
        let params = pair_up(keys, values);
        assert forall|j: int| 0 <= j < params.len() implies is_key_text(#[trigger] params[j].0) by {
            assert(params[j].0 == keys[j]);
        }
        assert forall|j1: int, j2: int|
            0 <= j1 < params.len() && 0 <= j2 < params.len() && j1 != j2 implies #[trigger] params[j1].0
                != #[trigger] params[j2].0 by {
            assert(params[j1].0 == keys[j1]);
            assert(params[j2].0 == keys[j2]);
        }
        assert forall|j: int| 0 <= j < params.len() implies has_hole(ps, #[trigger] params[j].0) by {
            assert(params[j].0 == keys[j]);
        }
        lemma_render_pieces(ps, params);
        let f = fill_all(ps, params);
        assert forall|i: int| 0 <= i < f.len() implies !(#[trigger] f[i]).0 by {
            if f[i].0 {
                assert(f[i] == ps[i]);
                assert(keys.contains(ps[i].1));
                let j = choose|j: int| 0 <= j < keys.len() && keys[j] == ps[i].1;
                assert(params[j].0 == keys[j]);
                assert(f[i].1 != params[j].0);
            }
        }
        lemma_flat_no_brace(f);
    }
}

/// The template `/channels/{channel_id}` renders cleanly with its keys.
proof fn lemma_template_channels_channel_id()
    ensures
        renders_cleanly("/channels/{channel_id}"@, seq!["channel_id"@]),
{
    let ps = seq![(false, "/channels/"@), (true, "channel_id"@), (false, ""@)];
    let keys = seq!["channel_id"@];
    reveal_strlit("");
    reveal_strlit("/channels/");
    reveal_strlit("/channels/{channel_id}");
    reveal_strlit("channel_id");
    assert(ps[1] == (true, keys[0]));
    assert(keys[0] == ps[1].1);
    lemma_pieces_render_cleanly(ps, keys);
    reveal_with_fuel(flat, 4);
    assert(flat(ps) =~= "/channels/{channel_id}"@);
}

/// The template `/channels/{channel_id}/members/{user_id}/permissions` renders cleanly with its keys.
proof fn lemma_template_channels_channel_id_members_user_id_permissions()
    ensures
        renders_cleanly("/channels/{channel_id}/members/{user_id}/permissions"@, seq!["channel_id"@, "user_id"@]),
{
    let ps = seq![(false, "/channels/"@), (true, "channel_id"@), (false, "/members/"@), (true, "user_id"@), (false, "/permissions"@)];
    let keys = seq!["channel_id"@, "user_id"@];
    reveal_strlit("/channels/");
    reveal_strlit("/channels/{channel_id}/members/{user_id}/permissions");
    reveal_strlit("/members/");
    reveal_strlit("/permissions");
    reveal_strlit("channel_id");
    reveal_strlit("user_id");
    assert(ps[1] == (true, keys[0]));
    assert(keys[0] == ps[1].1);
    assert(ps[3] == (true, keys[1]));
    assert(keys[1] == ps[3].1);
    assert(keys[0].len() != keys[1].len());
    lemma_pieces_render_cleanly(ps, keys);
    reveal_with_fuel(flat, 6);
    assert(flat(ps) =~= "/channels/{channel_id}/members/{user_id}/permissions"@);
}

/// The template `/channels/{channel_id}/messages/{message_id}/reactions/{type}/{id}` renders cleanly with its keys.
proof fn lemma_template_channels_channel_id_messages_message_id_reactions_type_id()
    ensures
        renders_cleanly("/channels/{channel_id}/messages/{message_id}/reactions/{type}/{id}"@, seq!["channel_id"@, "message_id"@, "type"@, "id"@]),
{
    let ps = seq![(false, "/channels/"@), (true, "channel_id"@), (false, "/messages/"@), (true, "message_id"@), (false, "/reactions/"@), (true, "type"@), (false, "/"@), (true, "id"@), (false, ""@)];
    let keys = seq!["channel_id"@, "message_id"@, "type"@, "id"@];
    reveal_strlit("");
    reveal_strlit("/");
    reveal_strlit("/channels/");
    reveal_strlit("/channels/{channel_id}/messages/{message_id}/reactions/{type}/{id}");
    reveal_strlit("/messages/");
    reveal_strlit("/reactions/");
    reveal_strlit("channel_id");
    reveal_strlit("id");
    reveal_strlit("message_id");
    reveal_strlit("type");
    assert(ps[1] == (true, keys[0]));
    assert(keys[0] == ps[1].1);
    assert(ps[3] == (true, keys[1]));
    assert(keys[1] == ps[3].1);
    assert(ps[5] == (true, keys[2]));
    assert(keys[2] == ps[5].1);
    assert(ps[7] == (true, keys[3]));
    assert(keys[3] == ps[7].1);
    assert(keys[0][0] != keys[1][0]);
    assert(keys[0].len() != keys[2].len());
    assert(keys[0].len() != keys[3].len());
    assert(keys[1].len() != keys[2].len());
    assert(keys[1].len() != keys[3].len());
    assert(keys[2].len() != keys[3].len());
    lemma_pieces_render_cleanly(ps, keys);
    reveal_with_fuel(flat, 10);
    assert(flat(ps) =~= "/channels/{channel_id}/messages/{message_id}/reactions/{type}/{id}"@);
}

/// The template `/channels/{channel_id}/online_nums` renders cleanly with its keys.
proof fn lemma_template_channels_channel_id_online_nums()
    ensures
        renders_cleanly("/channels/{channel_id}/online_nums"@, seq!["channel_id"@]),
{
    let ps = seq![(false, "/channels/"@), (true, "channel_id"@), (false, "/online_nums"@)];
    let keys = seq!["channel_id"@];
    reveal_strlit("/channels/");
    reveal_strlit("/channels/{channel_id}/online_nums");
    reveal_strlit("/online_nums");
    reveal_strlit("channel_id");
    assert(ps[1] == (true, keys[0]));
    assert(keys[0] == ps[1].1);
    lemma_pieces_render_cleanly(ps, keys);
    reveal_with_fuel(flat, 4);
    assert(flat(ps) =~= "/channels/{channel_id}/online_nums"@);
}

/// The template `/channels/{channel_id}/pins` renders cleanly with its keys.
proof fn lemma_template_channels_channel_id_pins()
    ensures
        renders_cleanly("/channels/{channel_id}/pins"@, seq!["channel_id"@]),
{
    let ps = seq![(false, "/channels/"@), (true, "channel_id"@), (false, "/pins"@)];
    let keys = seq!["channel_id"@];
    reveal_strlit("/channels/");
    reveal_strlit("/channels/{channel_id}/pins");
    reveal_strlit("/pins");
    reveal_strlit("channel_id");
    assert(ps[1] == (true, keys[0]));
    assert(keys[0] == ps[1].1);
    lemma_pieces_render_cleanly(ps, keys);
    reveal_with_fuel(flat, 4);
    assert(flat(ps) =~= "/channels/{channel_id}/pins"@);
}

/// The template `/channels/{channel_id}/pins/{message_id}` renders cleanly with its keys.
proof fn lemma_template_channels_channel_id_pins_message_id()
    ensures
        renders_cleanly("/channels/{channel_id}/pins/{message_id}"@, seq!["channel_id"@, "message_id"@]),
{
    let ps = seq![(false, "/channels/"@), (true, "channel_id"@), (false, "/pins/"@), (true, "message_id"@), (false, ""@)];
    let keys = seq!["channel_id"@, "message_id"@];
    reveal_strlit("");
    reveal_strlit("/channels/");
    reveal_strlit("/channels/{channel_id}/pins/{message_id}");
    reveal_strlit("/pins/");
    reveal_strlit("channel_id");
    reveal_strlit("message_id");
    assert(ps[1] == (true, keys[0]));
    assert(keys[0] == ps[1].1);
    assert(ps[3] == (true, keys[1]));
    assert(keys[1] == ps[3].1);
    assert(keys[0][0] != keys[1][0]);
    lemma_pieces_render_cleanly(ps, keys);
    reveal_with_fuel(flat, 6);
    assert(flat(ps) =~= "/channels/{channel_id}/pins/{message_id}"@);
}

/// The template `/channels/{channel_id}/roles/{role_id}/permissions` renders cleanly with its keys.
proof fn lemma_template_channels_channel_id_roles_role_id_permissions()
    ensures
        renders_cleanly("/channels/{channel_id}/roles/{role_id}/permissions"@, seq!["channel_id"@, "role_id"@]),
{
    let ps = seq![(false, "/channels/"@), (true, "channel_id"@), (false, "/roles/"@), (true, "role_id"@), (false, "/permissions"@)];
    let keys = seq!["channel_id"@, "role_id"@];
    reveal_strlit("/channels/");
    reveal_strlit("/channels/{channel_id}/roles/{role_id}/permissions");
    reveal_strlit("/permissions");
    reveal_strlit("/roles/");
    reveal_strlit("channel_id");
    reveal_strlit("role_id");
    assert(ps[1] == (true, keys[0]));
    assert(keys[0] == ps[1].1);
    assert(ps[3] == (true, keys[1]));
    assert(keys[1] == ps[3].1);
    assert(keys[0].len() != keys[1].len());
    lemma_pieces_render_cleanly(ps, keys);
    reveal_with_fuel(flat, 6);
    assert(flat(ps) =~= "/channels/{channel_id}/roles/{role_id}/permissions"@);
}

/// The template `/channels/{channel_id}/schedules` renders cleanly with its keys.
proof fn lemma_template_channels_channel_id_schedules()
    ensures
        renders_cleanly("/channels/{channel_id}/schedules"@, seq!["channel_id"@]),
{
    let ps = seq![(false, "/channels/"@), (true, "channel_id"@), (false, "/schedules"@)];
    let keys = seq!["channel_id"@];
    reveal_strlit("/channels/");
    reveal_strlit("/channels/{channel_id}/schedules");
    reveal_strlit("/schedules");
    reveal_strlit("channel_id");
    assert(ps[1] == (true, keys[0]));
    assert(keys[0] == ps[1].1);
    lemma_pieces_render_cleanly(ps, keys);
    reveal_with_fuel(flat, 4);
    assert(flat(ps) =~= "/channels/{channel_id}/schedules"@);
}

/// The template `/channels/{channel_id}/schedules/{schedule_id}` renders cleanly with its keys.
proof fn lemma_template_channels_channel_id_schedules_schedule_id()
    ensures
        renders_cleanly("/channels/{channel_id}/schedules/{schedule_id}"@, seq!["channel_id"@, "schedule_id"@]),
{
    let ps = seq![(false, "/channels/"@), (true, "channel_id"@), (false, "/schedules/"@), (true, "schedule_id"@), (false, ""@)];
    let keys = seq!["channel_id"@, "schedule_id"@];
    reveal_strlit("");
    reveal_strlit("/channels/");
    reveal_strlit("/channels/{channel_id}/schedules/{schedule_id}");
    reveal_strlit("/schedules/");
    reveal_strlit("channel_id");
    reveal_strlit("schedule_id");
    assert(ps[1] == (true, keys[0]));
    assert(keys[0] == ps[1].1);
    assert(ps[3] == (true, keys[1]));
    assert(keys[1] == ps[3].1);
    assert(keys[0].len() != keys[1].len());
    lemma_pieces_render_cleanly(ps, keys);
    reveal_with_fuel(flat, 6);
    assert(flat(ps) =~= "/channels/{channel_id}/schedules/{schedule_id}"@);
}

/// The template `/channels/{channel_id}/threads` renders cleanly with its keys.
proof fn lemma_template_channels_channel_id_threads()
    ensures
        renders_cleanly("/channels/{channel_id}/threads"@, seq!["channel_id"@]),
{
    let ps = seq![(false, "/channels/"@), (true, "channel_id"@), (false, "/threads"@)];
    let keys = seq!["channel_id"@];
    reveal_strlit("/channels/");
    reveal_strlit("/channels/{channel_id}/threads");
    reveal_strlit("/threads");
    reveal_strlit("channel_id");
    assert(ps[1] == (true, keys[0]));
    assert(keys[0] == ps[1].1);
    lemma_pieces_render_cleanly(ps, keys);
    reveal_with_fuel(flat, 4);
    assert(flat(ps) =~= "/channels/{channel_id}/threads"@);
}

/// The template `/channels/{channel_id}/threads/{thread_id}` renders cleanly with its keys.
proof fn lemma_template_channels_channel_id_threads_thread_id()
    ensures
        renders_cleanly("/channels/{channel_id}/threads/{thread_id}"@, seq!["channel_id"@, "thread_id"@]),
{
    let ps = seq![(false, "/channels/"@), (true, "channel_id"@), (false, "/threads/"@), (true, "thread_id"@), (false, ""@)];
    let keys = seq!["channel_id"@, "thread_id"@];
    reveal_strlit("");
    reveal_strlit("/channels/");
    reveal_strlit("/channels/{channel_id}/threads/{thread_id}");
    reveal_strlit("/threads/");
    reveal_strlit("channel_id");
    reveal_strlit("thread_id");
    assert(ps[1] == (true, keys[0]));
    assert(keys[0] == ps[1].1);
    assert(ps[3] == (true, keys[1]));
    assert(keys[1] == ps[3].1);
    assert(keys[0].len() != keys[1].len());
    lemma_pieces_render_cleanly(ps, keys);
    reveal_with_fuel(flat, 6);
    assert(flat(ps) =~= "/channels/{channel_id}/threads/{thread_id}"@);
}

/// The template `/guilds/{guild_id}` renders cleanly with its keys.
proof fn lemma_template_guilds_guild_id()
    ensures
        renders_cleanly("/guilds/{guild_id}"@, seq!["guild_id"@]),
{
    let ps = seq![(false, "/guilds/"@), (true, "guild_id"@), (false, ""@)];
    let keys = seq!["guild_id"@];
    reveal_strlit("");
    reveal_strlit("/guilds/");
    reveal_strlit("/guilds/{guild_id}");
    reveal_strlit("guild_id");
    assert(ps[1] == (true, keys[0]));
    assert(keys[0] == ps[1].1);
    lemma_pieces_render_cleanly(ps, keys);
    reveal_with_fuel(flat, 4);
    assert(flat(ps) =~= "/guilds/{guild_id}"@);
}

/// The template `/guilds/{guild_id}/announces` renders cleanly with its keys.
proof fn lemma_template_guilds_guild_id_announces()
    ensures
        renders_cleanly("/guilds/{guild_id}/announces"@, seq!["guild_id"@]),
{
    let ps = seq![(false, "/guilds/"@), (true, "guild_id"@), (false, "/announces"@)];
    let keys = seq!["guild_id"@];
    reveal_strlit("/announces");
    reveal_strlit("/guilds/");
    reveal_strlit("/guilds/{guild_id}/announces");
    reveal_strlit("guild_id");
    assert(ps[1] == (true, keys[0]));
    assert(keys[0] == ps[1].1);
    lemma_pieces_render_cleanly(ps, keys);
    reveal_with_fuel(flat, 4);
    assert(flat(ps) =~= "/guilds/{guild_id}/announces"@);
}

/// The template `/guilds/{guild_id}/announces/{message_id}` renders cleanly with its keys.
proof fn lemma_template_guilds_guild_id_announces_message_id()
    ensures
        renders_cleanly("/guilds/{guild_id}/announces/{message_id}"@, seq!["guild_id"@, "message_id"@]),
{
    let ps = seq![(false, "/guilds/"@), (true, "guild_id"@), (false, "/announces/"@), (true, "message_id"@), (false, ""@)];
    let keys = seq!["guild_id"@, "message_id"@];
    reveal_strlit("");
    reveal_strlit("/announces/");
    reveal_strlit("/guilds/");
    reveal_strlit("/guilds/{guild_id}/announces/{message_id}");
    reveal_strlit("guild_id");
    reveal_strlit("message_id");
    assert(ps[1] == (true, keys[0]));
    assert(keys[0] == ps[1].1);
    assert(ps[3] == (true, keys[1]));
    assert(keys[1] == ps[3].1);
    assert(keys[0].len() != keys[1].len());
    lemma_pieces_render_cleanly(ps, keys);
    reveal_with_fuel(flat, 6);
    assert(flat(ps) =~= "/guilds/{guild_id}/announces/{message_id}"@);
}

/// The template `/guilds/{guild_id}/api_permission` renders cleanly with its keys.
proof fn lemma_template_guilds_guild_id_api_permission()
    ensures
        renders_cleanly("/guilds/{guild_id}/api_permission"@, seq!["guild_id"@]),
{
    let ps = seq![(false, "/guilds/"@), (true, "guild_id"@), (false, "/api_permission"@)];
    let keys = seq!["guild_id"@];
    reveal_strlit("/api_permission");
    reveal_strlit("/guilds/");
    reveal_strlit("/guilds/{guild_id}/api_permission");
    reveal_strlit("guild_id");
    assert(ps[1] == (true, keys[0]));
    assert(keys[0] == ps[1].1);
    lemma_pieces_render_cleanly(ps, keys);
    reveal_with_fuel(flat, 4);
    assert(flat(ps) =~= "/guilds/{guild_id}/api_permission"@);
}

/// The template `/guilds/{guild_id}/api_permission/demand` renders cleanly with its keys.
proof fn lemma_template_guilds_guild_id_api_permission_demand()
    ensures
        renders_cleanly("/guilds/{guild_id}/api_permission/demand"@, seq!["guild_id"@]),
{
    let ps = seq![(false, "/guilds/"@), (true, "guild_id"@), (false, "/api_permission/demand"@)];
    let keys = seq!["guild_id"@];
    reveal_strlit("/api_permission/demand");
    reveal_strlit("/guilds/");
    reveal_strlit("/guilds/{guild_id}/api_permission/demand");
    reveal_strlit("guild_id");
    assert(ps[1] == (true, keys[0]));
    assert(keys[0] == ps[1].1);
    lemma_pieces_render_cleanly(ps, keys);
    reveal_with_fuel(flat, 4);
    assert(flat(ps) =~= "/guilds/{guild_id}/api_permission/demand"@);
}

/// The template `/guilds/{guild_id}/channels` renders cleanly with its keys.
proof fn lemma_template_guilds_guild_id_channels()
    ensures
        renders_cleanly("/guilds/{guild_id}/channels"@, seq!["guild_id"@]),
{
    let ps = seq![(false, "/guilds/"@), (true, "guild_id"@), (false, "/channels"@)];
    let keys = seq!["guild_id"@];
    reveal_strlit("/channels");
    reveal_strlit("/guilds/");
    reveal_strlit("/guilds/{guild_id}/channels");
    reveal_strlit("guild_id");
    assert(ps[1] == (true, keys[0]));
    assert(keys[0] == ps[1].1);
    lemma_pieces_render_cleanly(ps, keys);
    reveal_with_fuel(flat, 4);
    assert(flat(ps) =~= "/guilds/{guild_id}/channels"@);
}

/// The template `/guilds/{guild_id}/members` renders cleanly with its keys.
proof fn lemma_template_guilds_guild_id_members()
    ensures
        renders_cleanly("/guilds/{guild_id}/members"@, seq!["guild_id"@]),
{
    let ps = seq![(false, "/guilds/"@), (true, "guild_id"@), (false, "/members"@)];
    let keys = seq!["guild_id"@];
    reveal_strlit("/guilds/");
    reveal_strlit("/guilds/{guild_id}/members");
    reveal_strlit("/members");
    reveal_strlit("guild_id");
    assert(ps[1] == (true, keys[0]));
    assert(keys[0] == ps[1].1);
    lemma_pieces_render_cleanly(ps, keys);
    reveal_with_fuel(flat, 4);
    assert(flat(ps) =~= "/guilds/{guild_id}/members"@);
}

/// The template `/guilds/{guild_id}/members/{user_id}` renders cleanly with its keys.
proof fn lemma_template_guilds_guild_id_members_user_id()
    ensures
        renders_cleanly("/guilds/{guild_id}/members/{user_id}"@, seq!["guild_id"@, "user_id"@]),
{
    let ps = seq![(false, "/guilds/"@), (true, "guild_id"@), (false, "/members/"@), (true, "user_id"@), (false, ""@)];
    let keys = seq!["guild_id"@, "user_id"@];
    reveal_strlit("");
    reveal_strlit("/guilds/");
    reveal_strlit("/guilds/{guild_id}/members/{user_id}");
    reveal_strlit("/members/");
    reveal_strlit("guild_id");
    reveal_strlit("user_id");
    assert(ps[1] == (true, keys[0]));
    assert(keys[0] == ps[1].1);
    assert(ps[3] == (true, keys[1]));
    assert(keys[1] == ps[3].1);
    assert(keys[0].len() != keys[1].len());
    lemma_pieces_render_cleanly(ps, keys);
    reveal_with_fuel(flat, 6);
    assert(flat(ps) =~= "/guilds/{guild_id}/members/{user_id}"@);
}

/// The template `/guilds/{guild_id}/members/{user_id}/mute` renders cleanly with its keys.
proof fn lemma_template_guilds_guild_id_members_user_id_mute()
    ensures
        renders_cleanly("/guilds/{guild_id}/members/{user_id}/mute"@, seq!["guild_id"@, "user_id"@]),
{
    let ps = seq![(false, "/guilds/"@), (true, "guild_id"@), (false, "/members/"@), (true, "user_id"@), (false, "/mute"@)];
    let keys = seq!["guild_id"@, "user_id"@];
    reveal_strlit("/guilds/");
    reveal_strlit("/guilds/{guild_id}/members/{user_id}/mute");
    reveal_strlit("/members/");
    reveal_strlit("/mute");
    reveal_strlit("guild_id");
    reveal_strlit("user_id");
    assert(ps[1] == (true, keys[0]));
    assert(keys[0] == ps[1].1);
    assert(ps[3] == (true, keys[1]));
    assert(keys[1] == ps[3].1);
    assert(keys[0].len() != keys[1].len());
    lemma_pieces_render_cleanly(ps, keys);
    reveal_with_fuel(flat, 6);
    assert(flat(ps) =~= "/guilds/{guild_id}/members/{user_id}/mute"@);
}

/// The template `/guilds/{guild_id}/members/{user_id}/roles/{role_id}` renders cleanly with its keys.
proof fn lemma_template_guilds_guild_id_members_user_id_roles_role_id()
    ensures
        renders_cleanly("/guilds/{guild_id}/members/{user_id}/roles/{role_id}"@, seq!["guild_id"@, "user_id"@, "role_id"@]),
{
    let ps = seq![(false, "/guilds/"@), (true, "guild_id"@), (false, "/members/"@), (true, "user_id"@), (false, "/roles/"@), (true, "role_id"@), (false, ""@)];
    let keys = seq!["guild_id"@, "user_id"@, "role_id"@];
    reveal_strlit("");
    reveal_strlit("/guilds/");
    reveal_strlit("/guilds/{guild_id}/members/{user_id}/roles/{role_id}");
    reveal_strlit("/members/");
    reveal_strlit("/roles/");
    reveal_strlit("guild_id");
    reveal_strlit("role_id");
    reveal_strlit("user_id");
    assert(ps[1] == (true, keys[0]));
    assert(keys[0] == ps[1].1);
    assert(ps[3] == (true, keys[1]));
    assert(keys[1] == ps[3].1);
    assert(ps[5] == (true, keys[2]));
    assert(keys[2] == ps[5].1);
    assert(keys[0].len() != keys[1].len());
    assert(keys[0].len() != keys[2].len());
    assert(keys[1][0] != keys[2][0]);
    lemma_pieces_render_cleanly(ps, keys);
    reveal_with_fuel(flat, 8);
    assert(flat(ps) =~= "/guilds/{guild_id}/members/{user_id}/roles/{role_id}"@);
}

/// The template `/guilds/{guild_id}/message/setting` renders cleanly with its keys.
proof fn lemma_template_guilds_guild_id_message_setting()
    ensures
        renders_cleanly("/guilds/{guild_id}/message/setting"@, seq!["guild_id"@]),
{
    let ps = seq![(false, "/guilds/"@), (true, "guild_id"@), (false, "/message/setting"@)];
    let keys = seq!["guild_id"@];
    reveal_strlit("/guilds/");
    reveal_strlit("/guilds/{guild_id}/message/setting");
    reveal_strlit("/message/setting");
    reveal_strlit("guild_id");
    assert(ps[1] == (true, keys[0]));
    assert(keys[0] == ps[1].1);
    lemma_pieces_render_cleanly(ps, keys);
    reveal_with_fuel(flat, 4);
    assert(flat(ps) =~= "/guilds/{guild_id}/message/setting"@);
}

/// The template `/guilds/{guild_id}/mute` renders cleanly with its keys.
proof fn lemma_template_guilds_guild_id_mute()
    ensures
        renders_cleanly("/guilds/{guild_id}/mute"@, seq!["guild_id"@]),
{
    let ps = seq![(false, "/guilds/"@), (true, "guild_id"@), (false, "/mute"@)];
    let keys = seq!["guild_id"@];
    reveal_strlit("/guilds/");
    reveal_strlit("/guilds/{guild_id}/mute");
    reveal_strlit("/mute");
    reveal_strlit("guild_id");
    assert(ps[1] == (true, keys[0]));
    assert(keys[0] == ps[1].1);
    lemma_pieces_render_cleanly(ps, keys);
    reveal_with_fuel(flat, 4);
    assert(flat(ps) =~= "/guilds/{guild_id}/mute"@);
}

/// The template `/guilds/{guild_id}/roles` renders cleanly with its keys.
proof fn lemma_template_guilds_guild_id_roles()
    ensures
        renders_cleanly("/guilds/{guild_id}/roles"@, seq!["guild_id"@]),
{
    let ps = seq![(false, "/guilds/"@), (true, "guild_id"@), (false, "/roles"@)];
    let keys = seq!["guild_id"@];
    reveal_strlit("/guilds/");
    reveal_strlit("/guilds/{guild_id}/roles");
    reveal_strlit("/roles");
    reveal_strlit("guild_id");
    assert(ps[1] == (true, keys[0]));
    assert(keys[0] == ps[1].1);
    lemma_pieces_render_cleanly(ps, keys);
    reveal_with_fuel(flat, 4);
    assert(flat(ps) =~= "/guilds/{guild_id}/roles"@);
}

/// The template `/guilds/{guild_id}/roles/{role_id}` renders cleanly with its keys.
proof fn lemma_template_guilds_guild_id_roles_role_id()
    ensures
        renders_cleanly("/guilds/{guild_id}/roles/{role_id}"@, seq!["guild_id"@, "role_id"@]),
{
    let ps = seq![(false, "/guilds/"@), (true, "guild_id"@), (false, "/roles/"@), (true, "role_id"@), (false, ""@)];
    let keys = seq!["guild_id"@, "role_id"@];
    reveal_strlit("");
    reveal_strlit("/guilds/");
    reveal_strlit("/guilds/{guild_id}/roles/{role_id}");
    reveal_strlit("/roles/");
    reveal_strlit("guild_id");
    reveal_strlit("role_id");
    assert(ps[1] == (true, keys[0]));
    assert(keys[0] == ps[1].1);
    assert(ps[3] == (true, keys[1]));
    assert(keys[1] == ps[3].1);
    assert(keys[0].len() != keys[1].len());
    lemma_pieces_render_cleanly(ps, keys);
    reveal_with_fuel(flat, 6);
    assert(flat(ps) =~= "/guilds/{guild_id}/roles/{role_id}"@);
}

/// The template `/guilds/{guild_id}/roles/{role_id}/members` renders cleanly with its keys.
proof fn lemma_template_guilds_guild_id_roles_role_id_members()
    ensures
        renders_cleanly("/guilds/{guild_id}/roles/{role_id}/members"@, seq!["guild_id"@, "role_id"@]),
{
    let ps = seq![(false, "/guilds/"@), (true, "guild_id"@), (false, "/roles/"@), (true, "role_id"@), (false, "/members"@)];
    let keys = seq!["guild_id"@, "role_id"@];
    reveal_strlit("/guilds/");
    reveal_strlit("/guilds/{guild_id}/roles/{role_id}/members");
    reveal_strlit("/members");
    reveal_strlit("/roles/");
    reveal_strlit("guild_id");
    reveal_strlit("role_id");
    assert(ps[1] == (true, keys[0]));
    assert(keys[0] == ps[1].1);
    assert(ps[3] == (true, keys[1]));
    assert(keys[1] == ps[3].1);
    assert(keys[0].len() != keys[1].len());
    lemma_pieces_render_cleanly(ps, keys);
    reveal_with_fuel(flat, 6);
    assert(flat(ps) =~= "/guilds/{guild_id}/roles/{role_id}/members"@);
}

/// The template `/interactions/{interaction_id}` renders cleanly with its keys.
proof fn lemma_template_interactions_interaction_id()
    ensures
        renders_cleanly("/interactions/{interaction_id}"@, seq!["interaction_id"@]),
{
    let ps = seq![(false, "/interactions/"@), (true, "interaction_id"@), (false, ""@)];
    let keys = seq!["interaction_id"@];
    reveal_strlit("");
    reveal_strlit("/interactions/");
    reveal_strlit("/interactions/{interaction_id}");
    reveal_strlit("interaction_id");
    assert(ps[1] == (true, keys[0]));
    assert(keys[0] == ps[1].1);
    lemma_pieces_render_cleanly(ps, keys);
    reveal_with_fuel(flat, 4);
    assert(flat(ps) =~= "/interactions/{interaction_id}"@);
}

/// The template `/users/@me` renders cleanly with its keys.
proof fn lemma_template_users_me()
    ensures
        renders_cleanly("/users/@me"@, Seq::<Seq<char>>::empty()),
{
    let ps = seq![(false, "/users/@me"@)];
    let keys = Seq::<Seq<char>>::empty();
    reveal_strlit("/users/@me");

    lemma_pieces_render_cleanly(ps, keys);
    reveal_with_fuel(flat, 2);
    assert(flat(ps) =~= "/users/@me"@);
}

/// The template `/users/@me/guilds` renders cleanly with its keys.
proof fn lemma_template_users_me_guilds()
    ensures
        renders_cleanly("/users/@me/guilds"@, Seq::<Seq<char>>::empty()),
{
    let ps = seq![(false, "/users/@me/guilds"@)];
    let keys = Seq::<Seq<char>>::empty();
    reveal_strlit("/users/@me/guilds");

    lemma_pieces_render_cleanly(ps, keys);
    reveal_with_fuel(flat, 2);
    assert(flat(ps) =~= "/users/@me/guilds"@);
}

/// The template `/v2/users/{openid}/messages` renders cleanly with its keys.
proof fn lemma_template_v2_users_openid_messages()
    ensures
        renders_cleanly("/v2/users/{openid}/messages"@, seq!["openid"@]),
{
    let ps = seq![(false, "/v2/users/"@), (true, "openid"@), (false, "/messages"@)];
    let keys = seq!["openid"@];
    reveal_strlit("/messages");
    reveal_strlit("/v2/users/");
    reveal_strlit("/v2/users/{openid}/messages");
    reveal_strlit("openid");
    assert(ps[1] == (true, keys[0]));
    assert(keys[0] == ps[1].1);
    lemma_pieces_render_cleanly(ps, keys);
    reveal_with_fuel(flat, 4);
    assert(flat(ps) =~= "/v2/users/{openid}/messages"@);
}

/// Every template of the official API renders with the keys its endpoint
/// fills, whatever their values, and leaves no placeholder in the path.
pub proof fn law_official_templates_render(p: OpenApiPaths)
    requires
        is_official(p),
    ensures
        p.guild_get matches Some(t) && renders_cleanly(t@, seq!["guild_id"@]),
        p.guild_channels matches Some(t) && renders_cleanly(t@, seq!["guild_id"@]),
        p.channel_get matches Some(t) && renders_cleanly(t@, seq!["channel_id"@]),
        p.channel_online_nums matches Some(t) && renders_cleanly(t@, seq!["channel_id"@]),
        p.member_list matches Some(t) && renders_cleanly(t@, seq!["guild_id"@]),
        p.member_get matches Some(t) && renders_cleanly(t@, seq!["guild_id"@, "user_id"@]),
        p.member_delete matches Some(t) && renders_cleanly(t@, seq!["guild_id"@, "user_id"@]),
        p.role_members_list matches Some(t) && renders_cleanly(t@, seq!["guild_id"@, "role_id"@]),
        p.role_member_add matches Some(t) && renders_cleanly(t@, seq!["guild_id"@, "user_id"@, "role_id"@]),
        p.role_member_delete matches Some(t) && renders_cleanly(t@, seq!["guild_id"@, "user_id"@, "role_id"@]),
        p.interaction_put matches Some(t) && renders_cleanly(t@, seq!["interaction_id"@]),
        p.reaction_add matches Some(t) && renders_cleanly(t@, seq!["channel_id"@, "message_id"@, "type"@, "id"@]),
        p.reaction_delete matches Some(t) && renders_cleanly(t@, seq!["channel_id"@, "message_id"@, "type"@, "id"@]),
        p.reaction_users matches Some(t) && renders_cleanly(t@, seq!["channel_id"@, "message_id"@, "type"@, "id"@]),
        p.announces_create matches Some(t) && renders_cleanly(t@, seq!["guild_id"@]),
        p.announces_delete matches Some(t) && renders_cleanly(t@, seq!["guild_id"@, "message_id"@]),
        p.api_permissions_list matches Some(t) && renders_cleanly(t@, seq!["guild_id"@]),
        p.api_permissions_create matches Some(t) && renders_cleanly(t@, seq!["guild_id"@]),
        p.channel_permissions_get_user matches Some(t) && renders_cleanly(t@, seq!["channel_id"@, "user_id"@]),
        p.channel_permissions_set_user matches Some(t) && renders_cleanly(t@, seq!["channel_id"@, "user_id"@]),
        p.channel_permissions_get_role matches Some(t) && renders_cleanly(t@, seq!["channel_id"@, "role_id"@]),
        p.channel_permissions_set_role matches Some(t) && renders_cleanly(t@, seq!["channel_id"@, "role_id"@]),
        p.pins_list matches Some(t) && renders_cleanly(t@, seq!["channel_id"@]),
        p.pins_add matches Some(t) && renders_cleanly(t@, seq!["channel_id"@, "message_id"@]),
        p.pins_delete matches Some(t) && renders_cleanly(t@, seq!["channel_id"@, "message_id"@]),
        p.role_list matches Some(t) && renders_cleanly(t@, seq!["guild_id"@]),
        p.role_create matches Some(t) && renders_cleanly(t@, seq!["guild_id"@]),
        p.role_update matches Some(t) && renders_cleanly(t@, seq!["guild_id"@, "role_id"@]),
        p.role_delete matches Some(t) && renders_cleanly(t@, seq!["guild_id"@, "role_id"@]),
        p.schedule_list matches Some(t) && renders_cleanly(t@, seq!["channel_id"@]),
        p.schedule_get matches Some(t) && renders_cleanly(t@, seq!["channel_id"@, "schedule_id"@]),
        p.schedule_create matches Some(t) && renders_cleanly(t@, seq!["channel_id"@]),
        p.schedule_update matches Some(t) && renders_cleanly(t@, seq!["channel_id"@, "schedule_id"@]),
        p.schedule_delete matches Some(t) && renders_cleanly(t@, seq!["channel_id"@, "schedule_id"@]),
        p.forum_threads_list matches Some(t) && renders_cleanly(t@, seq!["channel_id"@]),
        p.forum_thread_get matches Some(t) && renders_cleanly(t@, seq!["channel_id"@, "thread_id"@]),
        p.forum_thread_create matches Some(t) && renders_cleanly(t@, seq!["channel_id"@]),
        p.forum_thread_delete matches Some(t) && renders_cleanly(t@, seq!["channel_id"@, "thread_id"@]),
        p.mute_all matches Some(t) && renders_cleanly(t@, seq!["guild_id"@]),
        p.mute_user matches Some(t) && renders_cleanly(t@, seq!["guild_id"@, "user_id"@]),
        p.c2c_message_send matches Some(t) && renders_cleanly(t@, seq!["openid"@]),
        p.message_setting_get matches Some(t) && renders_cleanly(t@, seq!["guild_id"@]),
        p.user_me matches Some(t) && renders_cleanly(t@, Seq::<Seq<char>>::empty()),
        p.user_guilds matches Some(t) && renders_cleanly(t@, Seq::<Seq<char>>::empty()),
{
    lemma_template_channels_channel_id();
    lemma_template_channels_channel_id_members_user_id_permissions();
    lemma_template_channels_channel_id_messages_message_id_reactions_type_id();
    lemma_template_channels_channel_id_online_nums();
    lemma_template_channels_channel_id_pins();
    lemma_template_channels_channel_id_pins_message_id();
    lemma_template_channels_channel_id_roles_role_id_permissions();
    lemma_template_channels_channel_id_schedules();
    lemma_template_channels_channel_id_schedules_schedule_id();
    lemma_template_channels_channel_id_threads();
    lemma_template_channels_channel_id_threads_thread_id();
    lemma_template_guilds_guild_id();
    lemma_template_guilds_guild_id_announces();
    lemma_template_guilds_guild_id_announces_message_id();
    lemma_template_guilds_guild_id_api_permission();
    lemma_template_guilds_guild_id_api_permission_demand();
    lemma_template_guilds_guild_id_channels();
    lemma_template_guilds_guild_id_members();
    lemma_template_guilds_guild_id_members_user_id();
    lemma_template_guilds_guild_id_members_user_id_mute();
    lemma_template_guilds_guild_id_members_user_id_roles_role_id();
    lemma_template_guilds_guild_id_message_setting();
    lemma_template_guilds_guild_id_mute();
    lemma_template_guilds_guild_id_roles();
    lemma_template_guilds_guild_id_roles_role_id();
    lemma_template_guilds_guild_id_roles_role_id_members();
    lemma_template_interactions_interaction_id();
    lemma_template_users_me();
    lemma_template_users_me_guilds();
    lemma_template_v2_users_openid_messages();
}

} // verus!
