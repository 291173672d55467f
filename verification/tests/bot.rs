use qqbot_sdk::bot::access::{parse_list, AccessControl};
use qqbot_sdk::bot::command::{
    handle_command, help_text, parse_command, saved_reply, Command, CommandAction,
};
use qqbot_sdk::bot::dedup::Deduper;
use qqbot_sdk::bot::flow::screen_message;
use qqbot_sdk::bot::settings::{dedup_limits, parse_unsigned, Config};
use qqbot_sdk::bot::store::{store_from_json, KvStore, StoreError};

fn is(c: Option<Command>, expected: &str) -> bool {
    format!("{c:?}") == expected
}

#[test]
fn parse_command_recognises_commands() {
    assert!(is(parse_command("/", "/ping"), "Some(Ping)"));
    assert!(is(parse_command("/", "/PING"), "Some(Ping)"));
    assert!(is(parse_command("/", "/"), "Some(Help)"));
    assert!(is(parse_command("/", "/   "), "Some(Help)"));
    assert!(is(parse_command("/", "/help extra"), "Some(Help)"));
    assert!(is(parse_command("/", "/get k"), "Some(Get { key: \"k\" })"));
    assert!(is(parse_command("/", "/get"), "Some(Unknown)"));
    assert!(is(parse_command("/", "/set k"), "Some(Unknown)"));
    assert!(is(
        parse_command("/", "/set k  hello   big\tworld "),
        "Some(Put { key: \"k\", value: \"hello big world\" })"
    ));
    assert!(is(parse_command("/", "/dance"), "Some(Unknown)"));
    assert!(is(parse_command("/", "ping"), "None"));
    assert!(is(parse_command("!!", "!"), "None"));
    assert!(is(parse_command("/", "/get\u{3000}key"), "Some(Get { key: \"key\" })"));
}

#[test]
fn help_text_lists_commands() {
    assert_eq!(help_text("/"), "指令:\n/ping\n/help\n/get <key>\n/set <key> <value>");
}

#[test]
fn store_set_then_get() {
    let mut store = KvStore::new();
    assert_eq!(store.get("k"), None);
    assert_eq!(store.set("k", "v"), Ok(()));
    assert_eq!(store.get("k"), Some("v".to_string()));
    assert_eq!(store.set("k", "w"), Ok(()));
    assert_eq!(store.get("k"), Some("w".to_string()));
    assert_eq!(store.len(), 1);
}

#[test]
fn store_limits() {
    let mut store = KvStore::new();
    assert_eq!(store.set(&"k".repeat(129), "v"), Err(StoreError::KeyTooLong));
    assert_eq!(store.set(&"k".repeat(128), "v"), Ok(()));
    assert_eq!(store.set("é".repeat(65).as_str(), "v"), Err(StoreError::KeyTooLong));
    assert_eq!(store.set("k", &"v".repeat(4097)), Err(StoreError::ValueTooLong));
    for i in 0..999 {
        assert_eq!(store.set(&format!("key{i}"), "v"), Ok(()));
    }
    assert_eq!(store.len(), 1000);
    assert_eq!(store.set("one-more", "v"), Err(StoreError::CapacityExceeded));
    assert_eq!(store.set("key3", "updated"), Ok(()));
    assert_eq!(store.get("key3"), Some("updated".to_string()));
    assert_eq!(store.len(), 1000);
}

#[test]
fn store_from_pairs_later_wins() {
    let store = KvStore::from_pairs(vec![
        ("a".to_string(), "1".to_string()),
        ("b".to_string(), "2".to_string()),
        ("a".to_string(), "3".to_string()),
    ]);
    assert_eq!(store.len(), 2);
    assert_eq!(store.get("a"), Some("3".to_string()));
    assert_eq!(store.entries().len(), 2);
}

#[test]
fn store_error_messages() {
    assert_eq!(StoreError::KeyTooLong.message(), "key 长度超过 128 字节限制");
    assert_eq!(StoreError::ValueTooLong.message(), "value 长度超过 4096 字节限制");
    assert_eq!(StoreError::CapacityExceeded.message(), "存储条目数已达上限 1000");
    assert_eq!(StoreError::Io("disk".to_string()).message(), "disk");
}

fn reply(a: CommandAction) -> String {
    match a {
        CommandAction::Reply(t) => t,
        CommandAction::Persist { key } => format!("persist {key}"),
    }
}

#[test]
fn handle_command_replies() {
    let mut store = KvStore::new();
    assert_eq!(reply(handle_command(Command::Ping, "/", &mut store)), "pong");
    assert_eq!(reply(handle_command(Command::Unknown, "#", &mut store)), help_text("#"));
    assert_eq!(
        reply(handle_command(Command::Get { key: "x".to_string() }, "/", &mut store)),
        "未找到键: x"
    );
    assert_eq!(
        reply(handle_command(
            Command::Put { key: "x".to_string(), value: "1 2".to_string() },
            "/",
            &mut store
        )),
        "persist x"
    );
    assert_eq!(
        reply(handle_command(Command::Get { key: "x".to_string() }, "/", &mut store)),
        "x = 1 2"
    );
    assert_eq!(
        reply(handle_command(
            Command::Put { key: "k".repeat(200), value: "v".to_string() },
            "/",
            &mut store
        )),
        "写入失败，请稍后再试"
    );
    assert_eq!(saved_reply("x", &Ok(())), "已保存: x");
    assert_eq!(saved_reply("x", &Err(StoreError::Io("e".to_string()))), "写入失败，请稍后再试");
}

#[test]
fn access_control_deny_wins() {
    let ac = AccessControl::from_lists("a, b;c", "b");
    assert!(ac.allowed("a"));
    assert!(!ac.allowed("b"));
    assert!(ac.allowed("c"));
    assert!(!ac.allowed("d"));
    let open = AccessControl::from_lists("", " x ");
    assert!(open.allowed("anyone"));
    assert!(!open.allowed("x"));
}

#[test]
fn parse_list_splits_and_dedups() {
    let mut items = parse_list(" a,,b ; a\tc\n");
    items.sort();
    assert_eq!(items, vec!["a".to_string(), "b".to_string(), "c".to_string()]);
    assert!(parse_list(" ,; ").is_empty());
}

#[test]
fn dedup_window_and_capacity() {
    let mut d = Deduper::new(60, 2);
    assert!(!d.is_duplicate("m1", 100));
    assert!(d.is_duplicate("m1", 100));
    assert!(d.is_duplicate("m1", 160));
    assert!(!d.is_duplicate("m1", 221));
    assert!(!d.is_duplicate("m2", 222));
    assert!(!d.is_duplicate("m3", 223));
    // m1 (seen at 221) was the oldest and made room for m3.
    assert!(!d.is_duplicate("m1", 224));
    assert!(d.is_duplicate("m3", 224));
}

#[test]
fn dedup_zero_capacity_is_off() {
    let mut d = Deduper::new(60, 0);
    assert!(!d.is_duplicate("m", 1));
    assert!(!d.is_duplicate("m", 1));
}

#[test]
fn screening_messages() {
    let ac = AccessControl::from_lists("", "bad");
    let mut d = Deduper::new(60, 10);
    assert!(is(screen_message(Some("  /ping "), "u", "1", "/", &ac, &mut d, 5), "Some(Ping)"));
    assert!(is(screen_message(Some("/ping"), "u", "1", "/", &ac, &mut d, 6), "None"));
    assert!(is(screen_message(Some("/ping"), "bad", "2", "/", &ac, &mut d, 6), "None"));
    assert!(is(screen_message(Some("ping"), "u", "3", "/", &ac, &mut d, 6), "None"));
    assert!(is(screen_message(None, "u", "4", "/", &ac, &mut d, 6), "None"));
    assert!(is(screen_message(Some("   "), "u", "5", "/", &ac, &mut d, 6), "None"));
    assert!(is(screen_message(Some("/what"), "u", "6", "/", &ac, &mut d, 6), "Some(Unknown)"));
}

#[test]
fn parse_unsigned_reads_like_str_parse() {
    assert_eq!(parse_unsigned("8081", 65535), Some(8081));
    assert_eq!(parse_unsigned("+7", 65535), Some(7));
    assert_eq!(parse_unsigned("007", 65535), Some(7));
    assert_eq!(parse_unsigned("65535", 65535), Some(65535));
    assert_eq!(parse_unsigned("65536", 65535), None);
    assert_eq!(parse_unsigned("", 65535), None);
    assert_eq!(parse_unsigned("+", 65535), None);
    assert_eq!(parse_unsigned("-1", 65535), None);
    assert_eq!(parse_unsigned("-0", 65535), None);
    assert_eq!(parse_unsigned(" 80", 65535), None);
    assert_eq!(parse_unsigned("8o", 65535), None);
    assert_eq!(parse_unsigned("18446744073709551615", u64::MAX), Some(u64::MAX));
    assert_eq!(parse_unsigned("18446744073709551616", u64::MAX), None);
    for s in ["0", "1", "42", "65535", "+9", "x", "", "99999"] {
        assert_eq!(parse_unsigned(s, 65535), s.parse::<u16>().ok().map(u64::from));
    }
}

#[test]
fn config_defaults_and_values() {
    let c = Config::from_vars(None, None, None, "s", "a", "c", None, None);
    assert_eq!(c.host, "0.0.0.0");
    assert_eq!(c.port, 8080);
    assert_eq!(c.webhook_path, "/webhook");
    assert_eq!(c.cmd_prefix, "/");
    assert_eq!(c.data_path, "data/kv.json");
    assert_eq!((c.bot_secret.as_str(), c.app_id.as_str(), c.client_secret.as_str()), ("s", "a", "c"));
    let c = Config::from_vars(
        Some("127.0.0.1"),
        Some("9000"),
        Some("/hook"),
        "s",
        "a",
        "c",
        Some("!"),
        Some("/tmp/kv.json"),
    );
    assert_eq!(c.host, "127.0.0.1");
    assert_eq!(c.port, 9000);
    assert_eq!(c.webhook_path, "/hook");
    assert_eq!(c.cmd_prefix, "!");
    assert_eq!(c.data_path, "/tmp/kv.json");
    assert_eq!(Config::from_vars(None, Some("70000"), None, "s", "a", "c", None, None).port, 8080);
    assert_eq!(Config::from_vars(None, Some("port"), None, "s", "a", "c", None, None).port, 8080);
}

#[test]
fn dedup_limits_defaults_and_values() {
    assert_eq!(dedup_limits(None, None), (60, 2000));
    assert_eq!(dedup_limits(Some("5"), Some("0")), (5, 0));
    assert_eq!(dedup_limits(Some("soon"), Some("-3")), (60, 2000));
}

#[test]
fn store_read_from_json() {
    let s = store_from_json(r#"{"a":"1","b":"two"}"#);
    assert_eq!(s.len(), 2);
    assert_eq!(s.get("a").as_deref(), Some("1"));
    assert_eq!(s.get("b").as_deref(), Some("two"));
    assert_eq!(store_from_json(r#"{"a":"1","a":"2"}"#).get("a").as_deref(), Some("2"));
    assert_eq!(store_from_json("").len(), 0);
    assert_eq!(store_from_json("not json").len(), 0);
    assert_eq!(store_from_json(r#"{"a":1}"#).len(), 0);
    assert_eq!(store_from_json(r#"["a"]"#).len(), 0);
}
