use qqbot_sdk::encoding::{encode_path_segment, encode_query_component};
use qqbot_sdk::openapi::{
    append_query, auth_header_value, endpoint_path, fresh_token, issued_token, join_url,
    override_or, preview, render_path, require_path, token_from_response, AccessToken, OpenApiPaths,
};
use qqbot_sdk::Error;

#[test]
fn render_path_percent_encodes_path_values() {
    let path = render_path("/v2/users/{openid}/messages", &[("openid", "user/a?b")]).unwrap();
    assert_eq!(path, "/v2/users/user%2Fa%3Fb/messages");
}

#[test]
fn append_query_percent_encodes_query_values() {
    let path = append_query(
        "/users/@me/guilds".to_string(),
        &[
            ("before", Some("a/b&x=1".to_string())),
            ("limit", Some("100".to_string())),
        ],
    );
    assert_eq!(path, "/users/@me/guilds?before=a%2Fb%26x%3D1&limit=100");
}

#[test]
fn render_path_fills_every_occurrence_in_order() {
    let path = render_path(
        "/guilds/{guild_id}/members/{user_id}/roles/{guild_id}",
        &[("guild_id", "g 1"), ("user_id", "u")],
    )
    .unwrap();
    assert_eq!(path, "/guilds/g%201/members/u/roles/g%201");
}

#[test]
fn render_path_without_params_keeps_template() {
    assert_eq!(render_path("/users/@me", &[]).unwrap(), "/users/@me");
}

#[test]
fn render_path_reports_missing_placeholder() {
    match render_path("/channels/{channel_id}", &[("guild_id", "1")]) {
        Err(Error::Other(m)) => assert_eq!(m, "path template missing placeholder: {guild_id}"),
        other => panic!("unexpected result: {other:?}"),
    }
}

#[test]
fn render_path_checks_placeholders_after_earlier_replacements() {
    // The first value fills `{a}` with text that is encoded, so no placeholder
    // can be smuggled in through a value.
    match render_path("/x/{a}", &[("a", "{b}"), ("b", "1")]) {
        Err(Error::Other(m)) => assert_eq!(m, "path template missing placeholder: {b}"),
        other => panic!("unexpected result: {other:?}"),
    }
}

#[test]
fn encoding_keeps_only_letters_digits_and_percent() {
    assert_eq!(encode_path_segment("aZ9-_.~ /?#&="), "aZ9%2D%5F%2E%7E%20%2F%3F%23%26%3D");
    assert_eq!(encode_query_component("é"), "%C3%A9");
    assert_eq!(encode_query_component("你好"), "%E4%BD%A0%E5%A5%BD");
    assert_eq!(encode_query_component(""), "");
}

#[test]
fn append_query_without_values_keeps_path() {
    let path = append_query("/guilds/1/members".to_string(), &[("after", None), ("limit", None)]);
    assert_eq!(path, "/guilds/1/members");
}

#[test]
fn append_query_continues_existing_query() {
    let path = append_query(
        "/a?x=1".to_string(),
        &[("after", None), ("limit", Some("5".to_string()))],
    );
    assert_eq!(path, "/a?x=1&limit=5");
}

#[test]
fn join_url_uses_one_slash() {
    assert_eq!(join_url("https://api.sgroup.qq.com/", "/users/@me"), "https://api.sgroup.qq.com/users/@me");
    assert_eq!(join_url("https://h//", "//p"), "https://h/p");
    assert_eq!(join_url("https://h", "p"), "https://h/p");
    assert_eq!(join_url("", ""), "/");
}

#[test]
fn require_path_names_missing_template() {
    assert_eq!(require_path(&Some("/t".to_string()), "x").unwrap(), "/t");
    match require_path(&None, "guild_get") {
        Err(Error::Other(m)) => assert_eq!(m, "missing openapi path template: guild_get"),
        other => panic!("unexpected result: {other:?}"),
    }
}

#[test]
fn official_paths_render() {
    let paths = OpenApiPaths::official_defaults();
    assert_eq!(
        endpoint_path(&paths.c2c_message_send, "c2c_message_send", &[("openid", "abc")]).unwrap(),
        "/v2/users/abc/messages"
    );
    assert_eq!(
        endpoint_path(
            &paths.reaction_add,
            "reaction_add",
            &[("channel_id", "c"), ("message_id", "m"), ("type", "1"), ("id", "4")]
        )
        .unwrap(),
        "/channels/c/messages/m/reactions/1/4"
    );
    assert_eq!(paths.user_guilds.as_deref(), Some("/users/@me/guilds"));
    let empty = OpenApiPaths::default();
    assert!(endpoint_path(&empty.user_me, "user_me", &[]).is_err());
}

#[test]
fn token_cache_respects_margin() {
    let cache = Some(AccessToken { token: "tok".to_string(), expires_at: 1000 });
    assert_eq!(fresh_token(&cache, 800, 120).as_deref(), Some("tok"));
    assert_eq!(fresh_token(&cache, 880, 120), None);
    assert_eq!(fresh_token(&cache, 879, 120).as_deref(), Some("tok"));
    assert_eq!(fresh_token(&None, 0, 0), None);
}

#[test]
fn issued_token_uses_given_or_default_lifetime() {
    assert_eq!(issued_token("a".to_string(), Some(30), 7200, 100).expires_at, 130);
    assert_eq!(issued_token("a".to_string(), None, 7200, 100).expires_at, 7300);
}

#[test]
fn auth_header_has_prefix_and_space() {
    assert_eq!(auth_header_value(&Some("QQBot".to_string()), "t0"), "QQBot t0");
    assert_eq!(auth_header_value(&None, "t0"), "t0");
}

#[test]
fn token_response_outcomes() {
    let ok = token_from_response(200, "", Some("tok".to_string()), Some(60), 7200, 10).unwrap();
    assert_eq!(ok.token, "tok");
    assert_eq!(ok.expires_at, 70);
    match token_from_response(200, "{}", None, None, 7200, 10) {
        Err(Error::Token(m)) => assert_eq!(m, "access token not found in response"),
        other => panic!("unexpected result: {other:?}"),
    }
    match token_from_response(401, "denied", None, None, 7200, 10) {
        Err(Error::Token(m)) => assert_eq!(m, "token endpoint returned status 401: denied"),
        other => panic!("unexpected result: {other:?}"),
    }
    match token_from_response(503, &"x".repeat(600), Some("t".to_string()), None, 1, 1) {
        Err(Error::Token(m)) => {
            assert_eq!(m, format!("token endpoint returned status 503: {}", "x".repeat(512)))
        }
        other => panic!("unexpected result: {other:?}"),
    }
}

#[test]
fn preview_cuts_at_512_bytes() {
    assert_eq!(preview("short"), "short");
    assert_eq!(preview(&"é".repeat(300)).len(), 512);
    assert_eq!(preview(&"a".repeat(512)), "a".repeat(512));
    let odd = format!("a{}", "é".repeat(300));
    assert_eq!(preview(&odd), format!("a{}", "é".repeat(255)));
    assert_eq!(preview(&odd).len(), 511);
    assert_eq!(preview(&"😀".repeat(200)).len(), 512);
}

#[test]
fn token_error_cuts_at_a_character_boundary() {
    let body = format!("a{}", "é".repeat(300));
    match token_from_response(500, &body, None, None, u64::MAX, u64::MAX) {
        Err(Error::Token(m)) => {
            assert_eq!(m, format!("token endpoint returned status 500: a{}", "é".repeat(255)))
        }
        other => panic!("unexpected result: {other:?}"),
    }
}

#[test]
fn override_used_only_when_not_blank() {
    assert_eq!(override_or(None, "https://api.sgroup.qq.com"), "https://api.sgroup.qq.com");
    assert_eq!(override_or(Some(""), "d"), "d");
    assert_eq!(override_or(Some(" \t\n"), "d"), "d");
    assert_eq!(override_or(Some("\u{3000}"), "d"), "d");
    assert_eq!(override_or(Some(" http://x "), "d"), " http://x ");
    assert_eq!(override_or(Some("http://x"), "d"), "http://x");
}

#[test]
fn official_templates_leave_no_placeholder() {
    let p = OpenApiPaths::official_defaults();
    let t = p.reaction_add.unwrap();
    let path = render_path(
        &t,
        &[("channel_id", "{id}"), ("message_id", "{type}"), ("type", "1"), ("id", "{channel_id}")],
    )
    .unwrap();
    assert_eq!(path, "/channels/%7Bid%7D/messages/%7Btype%7D/reactions/1/%7Bchannel%5Fid%7D");
    assert!(!path.contains('{'));
    let me = render_path(&p.user_me.unwrap(), &[]).unwrap();
    assert_eq!(me, "/users/@me");
}

#[test]
fn official_templates_are_routes() {
    let p = OpenApiPaths::official_defaults();
    for t in [
        p.guild_get, p.guild_channels, p.channel_get, p.channel_online_nums, p.member_list,
        p.member_get, p.member_delete, p.role_members_list, p.role_member_add,
        p.role_member_delete, p.interaction_put, p.reaction_add, p.reaction_delete,
        p.reaction_users, p.announces_create, p.announces_delete, p.api_permissions_list,
        p.api_permissions_create, p.channel_permissions_get_user, p.channel_permissions_set_user,
        p.channel_permissions_get_role, p.channel_permissions_set_role, p.pins_list, p.pins_add,
        p.pins_delete, p.role_list, p.role_create, p.role_update, p.role_delete,
        p.schedule_list, p.schedule_get, p.schedule_create, p.schedule_update,
        p.schedule_delete, p.forum_threads_list, p.forum_thread_get, p.forum_thread_create,
        p.forum_thread_delete, p.mute_all, p.mute_user, p.c2c_message_send,
        p.message_setting_get, p.user_me, p.user_guilds,
    ] {
        let t = t.unwrap();
        assert!(t.starts_with('/'), "{t}");
        assert!(!t.contains('?'), "{t}");
    }
}
