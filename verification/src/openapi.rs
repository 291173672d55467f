//! Building the request paths and URLs of the QQ bot open API.
//!
//! Path templates hold placeholders such as `{guild_id}`; rendering fills each
//! one with the percent-encoded value, and query parameters are appended with
//! their keys and values encoded, so no caller-provided text can alter the
//! route.

use crate::encoding::{
    encode_path_segment, encode_query_component, encode_str, is_encoded_char,
    lemma_encoded_chars_are_safe,
};
use crate::error::Error;
use crate::words::{trim, trim_exec};
use crate::text::{
    chars_of, contains, extend_chars, join, replace_all, replace_all_exec, seq_contains, string_of,
    trim_end_char, trim_start_char,
};
use vstd::prelude::*;

verus! {

/// The URL of `path` under `base`: trailing `/` of the base and leading `/` of
/// the path are dropped and exactly one `/` joins them.
pub open spec fn spec_join_url(base: Seq<char>, path: Seq<char>) -> Seq<char> {
    trim_end_char(base, '/') + seq!['/'] + trim_start_char(path, '/')
}

/// Joins a base URL and a request path with exactly one `/` between them.
pub fn join_url(base: &str, path: &str) -> (res: String)
    ensures
        res@ == spec_join_url(base@, path@),
{
    let b = chars_of(base);
    let p = chars_of(path);
    let mut end = b.len();
    assert(b@.take(end as int) =~= b@);
    while end > 0 && b[end - 1] == '/'
        invariant
            end <= b@.len(),
            trim_end_char(b@, '/') == trim_end_char(b@.take(end as int), '/'),
        decreases end,
    {
        assert(b@.take(end as int).drop_last() =~= b@.take(end - 1));
        end = end - 1;
    }
    assert(trim_end_char(b@.take(end as int), '/') == b@.take(end as int));
    let mut start: usize = 0;
    assert(p@.skip(0) =~= p@);
    while start < p.len() && p[start] == '/'
        invariant
            start <= p@.len(),
            trim_start_char(p@, '/') == trim_start_char(p@.skip(start as int), '/'),
        decreases p@.len() - start,
    {
        assert(p@.skip(start as int).drop_first() =~= p@.skip(start + 1));
        start = start + 1;
    }
    assert(trim_start_char(p@.skip(start as int), '/') == p@.skip(start as int));
    let mut out: Vec<char> = Vec::new();
    let mut i: usize = 0;
    while i < end
        invariant
            end <= b@.len(),
            i <= end,
            out@ == b@.take(i as int),
        decreases end - i,
    {
        out.push(b[i]);
        i = i + 1;
        assert(out@ =~= b@.take(i as int));
    }
    out.push('/');
    let mut j: usize = start;
    let ghost mid = out@;
    while j < p.len()
        invariant
            start <= j <= p@.len(),
            out@ == mid + p@.subrange(start as int, j as int),
        decreases p@.len() - j,
    {
        out.push(p[j]);
        j = j + 1;
        assert(out@ =~= mid + p@.subrange(start as int, j as int));
    }
    assert(p@.subrange(start as int, p@.len() as int) =~= p@.skip(start as int));
    string_of(out.as_slice())
}

/// The text of the error for a path template that is not configured.
pub open spec fn missing_template_message(name: Seq<char>) -> Seq<char> {
    "missing openapi path template: "@ + name
}

/// The template itself, or an error naming the template that is missing.
pub fn require_path(path: &Option<String>, name: &str) -> (res: Result<String, Error>)
    ensures
        match path {
            Some(t) => res matches Ok(s) && s@ == t@,
            None => res matches Err(Error::Other(m)) && m@ == missing_template_message(name@),
        },
{
    match path {
        Some(t) => Ok(t.clone()),
        None => {
            let mut msg = chars_of("missing openapi path template: ");
            let n = chars_of(name);
            extend_chars(&mut msg, n.as_slice());
            Err(Error::Other(string_of(msg.as_slice())))
        },
    }
}

/// The placeholder that stands for `key` in a path template.
pub open spec fn placeholder(key: Seq<char>) -> Seq<char> {
    seq!['{'] + key + seq!['}']
}

/// The views of a list of `(key, value)` path parameters.
pub open spec fn path_param_views(params: Seq<(&str, &str)>) -> Seq<(Seq<char>, Seq<char>)> {
    params.map_values(|p: (&str, &str)| (p.0@, p.1@))
}

/// Renders a template with the given parameters, in order: each key's
/// placeholder must occur in the text rendered so far, and every occurrence of
/// it is replaced by the percent-encoded value. `Err` holds the first
/// placeholder that does not occur.
pub open spec fn spec_render_path(template: Seq<char>, params: Seq<(Seq<char>, Seq<char>)>) -> Result<
    Seq<char>,
    Seq<char>,
>
    decreases params.len(),
{
    if params.len() == 0 {
        Ok(template)
    } else {
        let needle = placeholder(params[0].0);
        if !seq_contains(template, needle) {
            Err(needle)
        } else {
            spec_render_path(
                replace_all(template, needle, encode_str(params[0].1)),
                params.drop_first(),
            )
        }
    }
}

/// The text of the error for a placeholder that a template lacks.
pub open spec fn missing_placeholder_message(needle: Seq<char>) -> Seq<char> {
    "path template missing placeholder: "@ + needle
}

/// Fills the placeholders of a path template with percent-encoded values.
pub fn render_path(template: &str, params: &[(&str, &str)]) -> (res: Result<String, Error>)
    ensures
        match spec_render_path(template@, path_param_views(params@)) {
            Ok(p) => res matches Ok(s) && s@ == p,
            Err(needle) => res matches Err(Error::Other(m)) && m@ == missing_placeholder_message(
                needle,
            ),
        },
{
    let ghost all = path_param_views(params@);
    let mut out = chars_of(template);
    let mut i: usize = 0;
    assert(all.skip(0) =~= all);
    while i < params.len()
        invariant
            all == path_param_views(params@),
            i <= params@.len(),
            spec_render_path(template@, all) == spec_render_path(out@, all.skip(i as int)),
        decreases params@.len() - i,
    {
        let (key, value) = params[i];
        assert(all[i as int] == (key@, value@));
        assert(all.skip(i as int)[0] == all[i as int]);
        assert(all.skip(i as int).drop_first() =~= all.skip(i + 1));
        let mut needle: Vec<char> = Vec::new();
        needle.push('{');
        let k = chars_of(key);
        extend_chars(&mut needle, k.as_slice());
        needle.push('}');
        assert(needle@ =~= placeholder(key@));
        if !contains(out.as_slice(), needle.as_slice()) {
            let mut msg = chars_of("path template missing placeholder: ");
            extend_chars(&mut msg, needle.as_slice());
            return Err(Error::Other(string_of(msg.as_slice())));
        }
        let encoded = encode_path_segment(value);
        let e = chars_of(encoded.as_str());
        out = replace_all_exec(out.as_slice(), needle.as_slice(), e.as_slice());
        i = i + 1;
    }
    assert(all.skip(i as int).len() == 0);
    Ok(string_of(out.as_slice()))
}

/// One encoded `key=value` query part.
pub open spec fn query_part(key: Seq<char>, value: Seq<char>) -> Seq<char> {
    encode_str(key) + seq!['='] + encode_str(value)
}

/// The views of a list of optional query parameters.
pub open spec fn query_param_views(params: Seq<(&str, Option<String>)>) -> Seq<
    (Seq<char>, Option<Seq<char>>),
> {
    params.map_values(
        |p: (&str, Option<String>)|
            (
                p.0@,
                match p.1 {
                    Some(v) => Some(v@),
                    None => None,
                },
            ),
    )
}

/// The encoded parts of the parameters that have a value, in order.
pub open spec fn query_parts(params: Seq<(Seq<char>, Option<Seq<char>>)>) -> Seq<Seq<char>>
    decreases params.len(),
{
    if params.len() == 0 {
        seq![]
    } else {
        let prev = query_parts(params.drop_last());
        match params.last().1 {
            Some(v) => prev.push(query_part(params.last().0, v)),
            None => prev,
        }
    }
}

/// `path` with the parameters that have a value appended as a query string;
/// `&` continues a query the path already has, `?` starts one otherwise.
pub open spec fn spec_append_query(path: Seq<char>, params: Seq<(Seq<char>, Option<Seq<char>>)>) -> Seq<
    char,
> {
    let parts = query_parts(params);
    if parts.len() == 0 {
        path
    } else {
        path + (if seq_contains(path, seq!['?']) {
            seq!['&']
        } else {
            seq!['?']
        }) + join(parts, seq!['&'])
    }
}

/// Appends the parameters that have a value to `path` as encoded query parts.
pub fn append_query(path: String, params: &[(&str, Option<String>)]) -> (res: String)
    ensures
        res@ == spec_append_query(path@, query_param_views(params@)),
{
    let ghost all = query_param_views(params@);
    let mut query: Vec<char> = Vec::new();
    let mut count: usize = 0;
    let mut i: usize = 0;
    assert(all.take(0) =~= Seq::<(Seq<char>, Option<Seq<char>>)>::empty());
    while i < params.len()
        invariant
            all == query_param_views(params@),
            i <= params@.len(),
            count == query_parts(all.take(i as int)).len(),
            count <= i,
            query@ == join(query_parts(all.take(i as int)), seq!['&']),
        decreases params@.len() - i,
    {
        let (key, value) = &params[i];
        assert(all.take(i + 1).drop_last() =~= all.take(i as int));
        assert(all.take(i + 1).last() == all[i as int]);
        match value {
            Some(v) => {
                let ek = encode_query_component(key);
                let ev = encode_query_component(v.as_str());
                let ghost before = query@;
                if count > 0 {
                    query.push('&');
                }
                let kc = chars_of(ek.as_str());
                extend_chars(&mut query, kc.as_slice());
                query.push('=');
                let vc = chars_of(ev.as_str());
                extend_chars(&mut query, vc.as_slice());
                let ghost parts = query_parts(all.take(i + 1));
                assert(parts == query_parts(all.take(i as int)).push(query_part(key@, v@)));
                assert(parts.drop_last() =~= query_parts(all.take(i as int)));
                if count > 0 {
                    assert(query@ =~= join(parts.drop_last(), seq!['&']) + seq!['&'] + parts.last());
                } else {
                    assert(query@ =~= parts[0]);
                }
                count = count + 1;
            },
            None => {},
        }
        i = i + 1;
    }
    assert(all.take(params@.len() as int) =~= all);
    if count == 0 {
        return path;
    }
    let p = chars_of(path.as_str());
    let mut out = p.clone();
    let q: [char; 1] = ['?'];
    if contains(p.as_slice(), &q) {
        out.push('&');
    } else {
        out.push('?');
    }
    proof {
        assert(q@ =~= seq!['?']);
    }
    extend_chars(&mut out, query.as_slice());
    string_of(out.as_slice())
}

/// Renders the path of an endpoint: the template must be configured, and its
/// placeholders are filled as `render_path` does.
pub fn endpoint_path(template: &Option<String>, name: &str, params: &[(&str, &str)]) -> (res:
    Result<String, Error>)
    ensures
        match template {
            None => res matches Err(Error::Other(m)) && m@ == missing_template_message(name@),
            Some(t) => match spec_render_path(t@, path_param_views(params@)) {
                Ok(p) => res matches Ok(s) && s@ == p,
                Err(needle) => res matches Err(Error::Other(m)) && m@
                    == missing_placeholder_message(needle),
            },
        },
{
    let t = require_path(template, name)?;
    render_path(t.as_str(), params)
}

/// The path templates of the open API endpoints; `None` marks an endpoint
/// without a configured template.
#[derive(Debug, Clone, Default)]
pub struct OpenApiPaths {
    pub guild_get: Option<String>,
    pub guild_channels: Option<String>,
    pub channel_get: Option<String>,
    pub channel_online_nums: Option<String>,
    pub member_list: Option<String>,
    pub member_get: Option<String>,
    pub member_delete: Option<String>,
    pub role_members_list: Option<String>,
    pub role_member_add: Option<String>,
    pub role_member_delete: Option<String>,
    pub interaction_put: Option<String>,
    pub reaction_add: Option<String>,
    pub reaction_delete: Option<String>,
    pub reaction_users: Option<String>,
    pub announces_create: Option<String>,
    pub announces_delete: Option<String>,
    pub api_permissions_list: Option<String>,
    pub api_permissions_create: Option<String>,
    pub channel_permissions_get_user: Option<String>,
    pub channel_permissions_set_user: Option<String>,
    pub channel_permissions_get_role: Option<String>,
    pub channel_permissions_set_role: Option<String>,
    pub pins_list: Option<String>,
    pub pins_add: Option<String>,
    pub pins_delete: Option<String>,
    pub role_list: Option<String>,
    pub role_create: Option<String>,
    pub role_update: Option<String>,
    pub role_delete: Option<String>,
    pub schedule_list: Option<String>,
    pub schedule_get: Option<String>,
    pub schedule_create: Option<String>,
    pub schedule_update: Option<String>,
    pub schedule_delete: Option<String>,
    pub forum_threads_list: Option<String>,
    pub forum_thread_get: Option<String>,
    pub forum_thread_create: Option<String>,
    pub forum_thread_delete: Option<String>,
    pub mute_all: Option<String>,
    pub mute_user: Option<String>,
    pub c2c_message_send: Option<String>,
    pub message_setting_get: Option<String>,
    pub user_me: Option<String>,
    pub user_guilds: Option<String>,
}

/// `o` holds a template whose text is `lit`.
pub open spec fn holds_template(o: Option<String>, lit: Seq<char>) -> bool {
    o matches Some(t) && t@ == lit
}

/// The templates of the official API, one for every endpoint.
pub open spec fn is_official(p: OpenApiPaths) -> bool {
    &&& holds_template(p.guild_get, "/guilds/{guild_id}"@)
    &&& holds_template(p.guild_channels, "/guilds/{guild_id}/channels"@)
    &&& holds_template(p.channel_get, "/channels/{channel_id}"@)
    &&& holds_template(p.channel_online_nums, "/channels/{channel_id}/online_nums"@)
    &&& holds_template(p.member_list, "/guilds/{guild_id}/members"@)
    &&& holds_template(p.member_get, "/guilds/{guild_id}/members/{user_id}"@)
    &&& holds_template(p.member_delete, "/guilds/{guild_id}/members/{user_id}"@)
    &&& holds_template(p.role_members_list, "/guilds/{guild_id}/roles/{role_id}/members"@)
    &&& holds_template(p.role_member_add, "/guilds/{guild_id}/members/{user_id}/roles/{role_id}"@)
    &&& holds_template(p.role_member_delete, "/guilds/{guild_id}/members/{user_id}/roles/{role_id}"@)
    &&& holds_template(p.interaction_put, "/interactions/{interaction_id}"@)
    &&& holds_template(p.reaction_add, "/channels/{channel_id}/messages/{message_id}/reactions/{type}/{id}"@)
    &&& holds_template(p.reaction_delete, "/channels/{channel_id}/messages/{message_id}/reactions/{type}/{id}"@)
    &&& holds_template(p.reaction_users, "/channels/{channel_id}/messages/{message_id}/reactions/{type}/{id}"@)
    &&& holds_template(p.announces_create, "/guilds/{guild_id}/announces"@)
    &&& holds_template(p.announces_delete, "/guilds/{guild_id}/announces/{message_id}"@)
    &&& holds_template(p.api_permissions_list, "/guilds/{guild_id}/api_permission"@)
    &&& holds_template(p.api_permissions_create, "/guilds/{guild_id}/api_permission/demand"@)
    &&& holds_template(p.channel_permissions_get_user, "/channels/{channel_id}/members/{user_id}/permissions"@)
    &&& holds_template(p.channel_permissions_set_user, "/channels/{channel_id}/members/{user_id}/permissions"@)
    &&& holds_template(p.channel_permissions_get_role, "/channels/{channel_id}/roles/{role_id}/permissions"@)
    &&& holds_template(p.channel_permissions_set_role, "/channels/{channel_id}/roles/{role_id}/permissions"@)
    &&& holds_template(p.pins_list, "/channels/{channel_id}/pins"@)
    &&& holds_template(p.pins_add, "/channels/{channel_id}/pins/{message_id}"@)
    &&& holds_template(p.pins_delete, "/channels/{channel_id}/pins/{message_id}"@)
    &&& holds_template(p.role_list, "/guilds/{guild_id}/roles"@)
    &&& holds_template(p.role_create, "/guilds/{guild_id}/roles"@)
    &&& holds_template(p.role_update, "/guilds/{guild_id}/roles/{role_id}"@)
    &&& holds_template(p.role_delete, "/guilds/{guild_id}/roles/{role_id}"@)
    &&& holds_template(p.schedule_list, "/channels/{channel_id}/schedules"@)
    &&& holds_template(p.schedule_get, "/channels/{channel_id}/schedules/{schedule_id}"@)
    &&& holds_template(p.schedule_create, "/channels/{channel_id}/schedules"@)
    &&& holds_template(p.schedule_update, "/channels/{channel_id}/schedules/{schedule_id}"@)
    &&& holds_template(p.schedule_delete, "/channels/{channel_id}/schedules/{schedule_id}"@)
    &&& holds_template(p.forum_threads_list, "/channels/{channel_id}/threads"@)
    &&& holds_template(p.forum_thread_get, "/channels/{channel_id}/threads/{thread_id}"@)
    &&& holds_template(p.forum_thread_create, "/channels/{channel_id}/threads"@)
    &&& holds_template(p.forum_thread_delete, "/channels/{channel_id}/threads/{thread_id}"@)
    &&& holds_template(p.mute_all, "/guilds/{guild_id}/mute"@)
    &&& holds_template(p.mute_user, "/guilds/{guild_id}/members/{user_id}/mute"@)
    &&& holds_template(p.c2c_message_send, "/v2/users/{openid}/messages"@)
    &&& holds_template(p.message_setting_get, "/guilds/{guild_id}/message/setting"@)
    &&& holds_template(p.user_me, "/users/@me"@)
    &&& holds_template(p.user_guilds, "/users/@me/guilds"@)
}

impl OpenApiPaths {
    /// The templates of the official API, one for every endpoint.
    pub fn official_defaults() -> (res: Self)
        ensures
            is_official(res),
    {
        Self {
            guild_get: Some("/guilds/{guild_id}".to_string()),
            guild_channels: Some("/guilds/{guild_id}/channels".to_string()),
            channel_get: Some("/channels/{channel_id}".to_string()),
            channel_online_nums: Some("/channels/{channel_id}/online_nums".to_string()),
            member_list: Some("/guilds/{guild_id}/members".to_string()),
            member_get: Some("/guilds/{guild_id}/members/{user_id}".to_string()),
            member_delete: Some("/guilds/{guild_id}/members/{user_id}".to_string()),
            role_members_list: Some("/guilds/{guild_id}/roles/{role_id}/members".to_string()),
            role_member_add: Some("/guilds/{guild_id}/members/{user_id}/roles/{role_id}".to_string()),
            role_member_delete: Some("/guilds/{guild_id}/members/{user_id}/roles/{role_id}".to_string()),
            interaction_put: Some("/interactions/{interaction_id}".to_string()),
            reaction_add: Some("/channels/{channel_id}/messages/{message_id}/reactions/{type}/{id}".to_string()),
            reaction_delete: Some("/channels/{channel_id}/messages/{message_id}/reactions/{type}/{id}".to_string()),
            reaction_users: Some("/channels/{channel_id}/messages/{message_id}/reactions/{type}/{id}".to_string()),
            announces_create: Some("/guilds/{guild_id}/announces".to_string()),
            announces_delete: Some("/guilds/{guild_id}/announces/{message_id}".to_string()),
            api_permissions_list: Some("/guilds/{guild_id}/api_permission".to_string()),
            api_permissions_create: Some("/guilds/{guild_id}/api_permission/demand".to_string()),
            channel_permissions_get_user: Some("/channels/{channel_id}/members/{user_id}/permissions".to_string()),
            channel_permissions_set_user: Some("/channels/{channel_id}/members/{user_id}/permissions".to_string()),
            channel_permissions_get_role: Some("/channels/{channel_id}/roles/{role_id}/permissions".to_string()),
            channel_permissions_set_role: Some("/channels/{channel_id}/roles/{role_id}/permissions".to_string()),
            pins_list: Some("/channels/{channel_id}/pins".to_string()),
            pins_add: Some("/channels/{channel_id}/pins/{message_id}".to_string()),
            pins_delete: Some("/channels/{channel_id}/pins/{message_id}".to_string()),
            role_list: Some("/guilds/{guild_id}/roles".to_string()),
            role_create: Some("/guilds/{guild_id}/roles".to_string()),
            role_update: Some("/guilds/{guild_id}/roles/{role_id}".to_string()),
            role_delete: Some("/guilds/{guild_id}/roles/{role_id}".to_string()),
            schedule_list: Some("/channels/{channel_id}/schedules".to_string()),
            schedule_get: Some("/channels/{channel_id}/schedules/{schedule_id}".to_string()),
            schedule_create: Some("/channels/{channel_id}/schedules".to_string()),
            schedule_update: Some("/channels/{channel_id}/schedules/{schedule_id}".to_string()),
            schedule_delete: Some("/channels/{channel_id}/schedules/{schedule_id}".to_string()),
            forum_threads_list: Some("/channels/{channel_id}/threads".to_string()),
            forum_thread_get: Some("/channels/{channel_id}/threads/{thread_id}".to_string()),
            forum_thread_create: Some("/channels/{channel_id}/threads".to_string()),
            forum_thread_delete: Some("/channels/{channel_id}/threads/{thread_id}".to_string()),
            mute_all: Some("/guilds/{guild_id}/mute".to_string()),
            mute_user: Some("/guilds/{guild_id}/members/{user_id}/mute".to_string()),
            c2c_message_send: Some("/v2/users/{openid}/messages".to_string()),
            message_setting_get: Some("/guilds/{guild_id}/message/setting".to_string()),
            user_me: Some("/users/@me".to_string()),
            user_guilds: Some("/users/@me/guilds".to_string()),
        }
    }
}

/// `t` is an absolute route: it starts with `/` and holds no `?`, so no
/// query string is part of a template.
pub open spec fn is_route_path(t: Seq<char>) -> bool {
    &&& t.len() > 0
    &&& t[0] == '/'
    &&& forall|i: int| 0 <= i < t.len() ==> t[i] != '?'
}

/// Every template of the official API is an absolute route without a query
/// string.
pub proof fn law_official_templates_are_routes(p: OpenApiPaths)
    requires
        is_official(p),
    ensures
        p.guild_get matches Some(t) && is_route_path(t@),
        p.guild_channels matches Some(t) && is_route_path(t@),
        p.channel_get matches Some(t) && is_route_path(t@),
        p.channel_online_nums matches Some(t) && is_route_path(t@),
        p.member_list matches Some(t) && is_route_path(t@),
        p.member_get matches Some(t) && is_route_path(t@),
        p.member_delete matches Some(t) && is_route_path(t@),
        p.role_members_list matches Some(t) && is_route_path(t@),
        p.role_member_add matches Some(t) && is_route_path(t@),
        p.role_member_delete matches Some(t) && is_route_path(t@),
        p.interaction_put matches Some(t) && is_route_path(t@),
        p.reaction_add matches Some(t) && is_route_path(t@),
        p.reaction_delete matches Some(t) && is_route_path(t@),
        p.reaction_users matches Some(t) && is_route_path(t@),
        p.announces_create matches Some(t) && is_route_path(t@),
        p.announces_delete matches Some(t) && is_route_path(t@),
        p.api_permissions_list matches Some(t) && is_route_path(t@),
        p.api_permissions_create matches Some(t) && is_route_path(t@),
        p.channel_permissions_get_user matches Some(t) && is_route_path(t@),
        p.channel_permissions_set_user matches Some(t) && is_route_path(t@),
        p.channel_permissions_get_role matches Some(t) && is_route_path(t@),
        p.channel_permissions_set_role matches Some(t) && is_route_path(t@),
        p.pins_list matches Some(t) && is_route_path(t@),
        p.pins_add matches Some(t) && is_route_path(t@),
        p.pins_delete matches Some(t) && is_route_path(t@),
        p.role_list matches Some(t) && is_route_path(t@),
        p.role_create matches Some(t) && is_route_path(t@),
        p.role_update matches Some(t) && is_route_path(t@),
        p.role_delete matches Some(t) && is_route_path(t@),
        p.schedule_list matches Some(t) && is_route_path(t@),
        p.schedule_get matches Some(t) && is_route_path(t@),
        p.schedule_create matches Some(t) && is_route_path(t@),
        p.schedule_update matches Some(t) && is_route_path(t@),
        p.schedule_delete matches Some(t) && is_route_path(t@),
        p.forum_threads_list matches Some(t) && is_route_path(t@),
        p.forum_thread_get matches Some(t) && is_route_path(t@),
        p.forum_thread_create matches Some(t) && is_route_path(t@),
        p.forum_thread_delete matches Some(t) && is_route_path(t@),
        p.mute_all matches Some(t) && is_route_path(t@),
        p.mute_user matches Some(t) && is_route_path(t@),
        p.c2c_message_send matches Some(t) && is_route_path(t@),
        p.message_setting_get matches Some(t) && is_route_path(t@),
        p.user_me matches Some(t) && is_route_path(t@),
        p.user_guilds matches Some(t) && is_route_path(t@),
{
    reveal_strlit("/channels/{channel_id}");
    reveal_strlit("/channels/{channel_id}/members/{user_id}/permissions");
    reveal_strlit("/channels/{channel_id}/messages/{message_id}/reactions/{type}/{id}");
    reveal_strlit("/channels/{channel_id}/online_nums");
    reveal_strlit("/channels/{channel_id}/pins");
    reveal_strlit("/channels/{channel_id}/pins/{message_id}");
    reveal_strlit("/channels/{channel_id}/roles/{role_id}/permissions");
    reveal_strlit("/channels/{channel_id}/schedules");
    reveal_strlit("/channels/{channel_id}/schedules/{schedule_id}");
    reveal_strlit("/channels/{channel_id}/threads");
    reveal_strlit("/channels/{channel_id}/threads/{thread_id}");
    reveal_strlit("/guilds/{guild_id}");
    reveal_strlit("/guilds/{guild_id}/announces");
    reveal_strlit("/guilds/{guild_id}/announces/{message_id}");
    reveal_strlit("/guilds/{guild_id}/api_permission");
    reveal_strlit("/guilds/{guild_id}/api_permission/demand");
    reveal_strlit("/guilds/{guild_id}/channels");
    reveal_strlit("/guilds/{guild_id}/members");
    reveal_strlit("/guilds/{guild_id}/members/{user_id}");
    reveal_strlit("/guilds/{guild_id}/members/{user_id}/mute");
    reveal_strlit("/guilds/{guild_id}/members/{user_id}/roles/{role_id}");
    reveal_strlit("/guilds/{guild_id}/message/setting");
    reveal_strlit("/guilds/{guild_id}/mute");
    reveal_strlit("/guilds/{guild_id}/roles");
    reveal_strlit("/guilds/{guild_id}/roles/{role_id}");
    reveal_strlit("/guilds/{guild_id}/roles/{role_id}/members");
    reveal_strlit("/interactions/{interaction_id}");
    reveal_strlit("/users/@me");
    reveal_strlit("/users/@me/guilds");
    reveal_strlit("/v2/users/{openid}/messages");
}

/// Base URL of the official open API.
pub const OFFICIAL_API_BASE_URL: &'static str = "https://api.sgroup.qq.com";

/// URL from which the official access token is obtained.
pub const OFFICIAL_TOKEN_URL: &'static str = "https://bots.qq.com/app/getAppAccessToken";

/// The setting that overrides a URL: used when it holds anything besides
/// white space, the default otherwise.
pub open spec fn spec_override_or(setting: Option<Seq<char>>, default: Seq<char>) -> Seq<char> {
    match setting {
        Some(t) => if trim(t).len() > 0 {
            t
        } else {
            default
        },
        None => default,
    }
}

/// The URL from an override setting, or the default when the setting is
/// unset or blank.
pub fn override_or(setting: Option<&str>, default: &str) -> (res: String)
    ensures
        res@ == spec_override_or(
            match setting {
                Some(t) => Some(t@),
                None => None,
            },
            default@,
        ),
{
    match setting {
        Some(t) => {
            let cs = chars_of(t);
            let trimmed = trim_exec(cs.as_slice());
            if trimmed.len() > 0 {
                t.to_string()
            } else {
                default.to_string()
            }
        },
        None => default.to_string(),
    }
}

/// An access token and the time, in seconds since the Unix epoch, at which it
/// expires.
#[derive(Debug, Clone)]
pub struct AccessToken {
    pub token: String,
    pub expires_at: u64,
}

/// A cached token is handed out while it stays valid for more than `margin`
/// seconds after `now`.
pub open spec fn spec_is_fresh(token: AccessToken, now: u64, margin: u64) -> bool {
    token.expires_at > now + margin
}

/// The cached token, if there is one that is still fresh at `now`; `None`
/// tells the caller to fetch a new token.
pub fn fresh_token(cache: &Option<AccessToken>, now: u64, margin: u64) -> (res: Option<String>)
    ensures
        match cache {
            Some(t) => if spec_is_fresh(*t, now, margin) {
                res matches Some(s) && s@ == t.token@
            } else {
                res is None
            },
            None => res is None,
        },
{
    match cache {
        Some(t) => {
            if t.expires_at >= margin && t.expires_at - margin > now {
                Some(t.token.clone())
            } else {
                None
            }
        },
        None => None,
    }
}

/// The lifetime of a newly issued token: the `expires_in` the endpoint gave,
/// or the configured default.
pub open spec fn spec_token_ttl(expires_in: Option<u64>, default_ttl: u64) -> u64 {
    match expires_in {
        Some(s) => s,
        None => default_ttl,
    }
}

/// The token issued at `now` with the lifetime the endpoint gave, or the
/// default lifetime.
pub fn issued_token(token: String, expires_in: Option<u64>, default_ttl: u64, now: u64) -> (res:
    AccessToken)
    requires
        now + spec_token_ttl(expires_in, default_ttl) <= u64::MAX,
    ensures
        res.token == token,
        res.expires_at == now + spec_token_ttl(expires_in, default_ttl),
{
    let ttl = match expires_in {
        Some(s) => s,
        None => default_ttl,
    };
    AccessToken { token, expires_at: now + ttl }
}

/// The value of the authorization header: the token, after the configured
/// prefix and a space when there is a prefix.
pub open spec fn spec_auth_value(prefix: Option<Seq<char>>, token: Seq<char>) -> Seq<char> {
    match prefix {
        Some(p) => p + seq![' '] + token,
        None => token,
    }
}

/// Builds the authorization header value for a token.
pub fn auth_header_value(prefix: &Option<String>, token: &str) -> (res: String)
    ensures
        res@ == spec_auth_value(
            match prefix {
                Some(p) => Some(p@),
                None => None,
            },
            token@,
        ),
{
    let t = chars_of(token);
    match prefix {
        Some(p) => {
            let mut out = chars_of(p.as_str());
            out.push(' ');
            extend_chars(&mut out, t.as_slice());
            string_of(out.as_slice())
        },
        None => string_of(t.as_slice()),
    }
}

/// The decimal digit for `d < 10`.
pub open spec fn digit_char(d: nat) -> char {
    (0x30 + d) as char
}

/// The decimal representation of `n`, without leading zeros.
pub open spec fn decimal(n: nat) -> Seq<char>
    decreases n,
{
    if n < 10 {
        seq![digit_char(n)]
    } else {
        decimal(n / 10).push(digit_char(n % 10))
    }
}

/// Writes `n` in decimal.
pub fn decimal_exec(n: u64) -> (res: Vec<char>)
    ensures
        res@ == decimal(n as nat),
    decreases n,
{
    let d = (n % 10) as u8;
    let c = (0x30u8 + d) as char;
    assert(c == digit_char((n % 10) as nat));
    if n < 10 {
        let mut v: Vec<char> = Vec::new();
        v.push(c);
        assert(v@ =~= seq![digit_char(n as nat)]);
        v
    } else {
        let mut v = decimal_exec(n / 10);
        v.push(c);
        v
    }
}

/// The longest body text an error message quotes, in UTF-8 bytes.
pub const PREVIEW_BYTES: usize = 512;

/// The number of bytes of the UTF-8 encoding of `c`.
pub open spec fn utf8_width(c: char) -> nat {
    if (c as u32) < 0x80 {
        1
    } else if (c as u32) < 0x800 {
        2
    } else if (c as u32) < 0x10000 {
        3
    } else {
        4
    }
}

/// The longest prefix of `s` whose UTF-8 encoding takes at most `budget`
/// bytes: the cut falls at the last character boundary within the budget.
pub open spec fn prefix_within(s: Seq<char>, budget: nat) -> Seq<char>
    decreases s.len(),
{
    if s.len() == 0 || utf8_width(s[0]) > budget {
        seq![]
    } else {
        seq![s[0]] + prefix_within(s.drop_first(), (budget - utf8_width(s[0])) as nat)
    }
}

/// The UTF-8 width of a character, as `char::len_utf8` gives it.
fn utf8_width_exec(c: char) -> (res: usize)
    ensures
        res == utf8_width(c),
{
    let code = c as u32;
    if code < 0x80 {
        1
    } else if code < 0x800 {
        2
    } else if code < 0x10000 {
        3
    } else {
        4
    }
}

/// The body text that an error message quotes: the longest prefix of `body`
/// of at most 512 bytes.
pub fn preview(body: &str) -> (res: String)
    ensures
        res@ == prefix_within(body@, PREVIEW_BYTES as nat),
{
    let cs = chars_of(body);
    let mut out: Vec<char> = Vec::new();
    let mut rem: usize = PREVIEW_BYTES;
    let mut i: usize = 0;
    assert(cs@.skip(0) =~= cs@);
    while i < cs.len()
        invariant
            i <= cs@.len(),
            cs@ == body@,
            rem <= PREVIEW_BYTES,
            prefix_within(cs@, PREVIEW_BYTES as nat) == out@ + prefix_within(cs@.skip(i as int), rem as nat),
        decreases cs@.len() - i,
    {
        let c = cs[i];
        let w = utf8_width_exec(c);
        assert(cs@.skip(i as int)[0] == c);
        assert(cs@.skip(i as int).drop_first() =~= cs@.skip(i + 1));
        if w > rem {
            assert(prefix_within(cs@.skip(i as int), rem as nat) =~= Seq::<char>::empty());
            assert(out@ + Seq::<char>::empty() =~= out@);
            return string_of(out.as_slice());
        }
        let ghost before = out@;
        out.push(c);
        assert(before + prefix_within(cs@.skip(i as int), rem as nat) =~= out@ + prefix_within(
            cs@.skip(i + 1),
            (rem - w) as nat,
        ));
        rem = rem - w;
        i = i + 1;
    }
    assert(prefix_within(cs@.skip(i as int), rem as nat) =~= Seq::<char>::empty());
    assert(out@ + Seq::<char>::empty() =~= out@);
    string_of(out.as_slice())
}

/// The outcome of a token request: a status that is not 2xx is a failure
/// quoting the status and up to 512 bytes of the body; a 2xx answer without
/// a token is a failure; otherwise the token.
pub open spec fn spec_token_response(
    status: u16,
    body: Seq<char>,
    token: Option<Seq<char>>,
) -> Result<Seq<char>, Seq<char>> {
    if !(200 <= status < 300) {
        Err(
            "token endpoint returned status "@ + decimal(status as nat) + ": "@ + prefix_within(
                body,
                PREVIEW_BYTES as nat,
            ),
        )
    } else {
        match token {
            Some(t) => Ok(t),
            None => Err("access token not found in response"@),
        }
    }
}

/// Judges the answer of the token endpoint, issued at `now`: its status, its
/// body text (used only for a failure), and the token and lifetime read from
/// the body. A status that is not 2xx is a token error quoting the status and
/// up to 512 bytes of the body, cut at a character boundary; a missing token
/// is a token error; otherwise the token is issued with the given or the
/// default lifetime.
pub fn token_from_response(
    status: u16,
    body: &str,
    token: Option<String>,
    expires_in: Option<u64>,
    default_ttl: u64,
    now: u64,
) -> (res: Result<AccessToken, Error>)
    requires
        200 <= status < 300 && token is Some ==> now + spec_token_ttl(expires_in, default_ttl)
            <= u64::MAX,
    ensures
        match spec_token_response(
            status,
            body@,
            match token {
                Some(t) => Some(t@),
                None => None,
            },
        ) {
            Ok(t) => res matches Ok(a) && a.token@ == t && a.expires_at == now + spec_token_ttl(
                expires_in,
                default_ttl,
            ),
            Err(m) => res matches Err(Error::Token(e)) && e@ == m,
        },
{
    if !(200 <= status && status < 300) {
        let mut msg = chars_of("token endpoint returned status ");
        let digits = decimal_exec(status as u64);
        extend_chars(&mut msg, digits.as_slice());
        let sep = chars_of(": ");
        extend_chars(&mut msg, sep.as_slice());
        let p = preview(body);
        let pc = chars_of(p.as_str());
        extend_chars(&mut msg, pc.as_slice());
        return Err(Error::Token(string_of(msg.as_slice())));
    }
    match token {
        Some(t) => Ok(issued_token(t, expires_in, default_ttl, now)),
        None => Err(Error::Token("access token not found in response".to_string())),
    }
}

/// A rendered path value holds only ASCII letters, digits and `%`, so it can
/// never add a `/`, `?`, `#` or `&` to a route.
pub proof fn law_path_values_are_inert(value: Seq<char>)
    ensures
        forall|i: int|
            0 <= i < encode_str(value).len() ==> is_encoded_char(#[trigger] encode_str(value)[i]),
{
    lemma_encoded_chars_are_safe(vstd::utf8::encode_utf8(value));
}

/// A template rendered without parameters is the template itself.
pub proof fn law_render_without_params(template: Seq<char>)
    ensures
        spec_render_path(template, seq![]) == Ok::<Seq<char>, Seq<char>>(template),
{
}

/// When no query parameter has a value, the path is left as it is.
pub proof fn law_query_without_values(path: Seq<char>, params: Seq<(Seq<char>, Option<Seq<char>>)>)
    requires
        forall|i: int| 0 <= i < params.len() ==> (#[trigger] params[i]).1 is None,
    ensures
        spec_append_query(path, params) == path,
{
    lemma_no_parts(params);
}

proof fn lemma_no_parts(params: Seq<(Seq<char>, Option<Seq<char>>)>)
    requires
        forall|i: int| 0 <= i < params.len() ==> (#[trigger] params[i]).1 is None,
    ensures
        query_parts(params).len() == 0,
    decreases params.len(),
{
    if params.len() > 0 {
        let p = params.drop_last();
        assert forall|i: int| 0 <= i < p.len() implies (#[trigger] p[i]).1 is None by {
            assert(p[i] == params[i]);
        }
        lemma_no_parts(p);
        assert(params.last() == params[params.len() - 1]);
    }
}

/// A base without a trailing `/` and a path without a leading `/` are joined
/// by exactly one `/`.
pub proof fn law_join_url_plain(base: Seq<char>, path: Seq<char>)
    requires
        base.len() == 0 || base.last() != '/',
        path.len() == 0 || path[0] != '/',
    ensures
        spec_join_url(base, path) == base + seq!['/'] + path,
{
}

} // verus!
