//! The settings of the command bot, from the raw text of its environment
//! variables: defaults for the unset ones and decimal numbers read the way
//! Rust's `str::parse` reads unsigned integers.

use crate::text::chars_of;
use vstd::prelude::*;

verus! {

/// `c` is an ASCII decimal digit.
pub open spec fn is_digit(c: char) -> bool {
    '0' <= c && c <= '9'
}

/// Every character of `d` is a decimal digit.
pub open spec fn all_digits(d: Seq<char>) -> bool {
    forall|i: int| 0 <= i < d.len() ==> is_digit(#[trigger] d[i])
}

/// The value of the decimal digits `d`, most significant first.
pub open spec fn digits_value(d: Seq<char>) -> nat
    decreases d.len(),
{
    if d.len() == 0 {
        0
    } else {
        digits_value(d.drop_last()) * 10 + ((d.last() as nat) - ('0' as nat)) as nat
    }
}

/// The digits of an unsigned number: the text after one optional `+`.
pub open spec fn unsigned_digits(s: Seq<char>) -> Seq<char> {
    if s.len() > 0 && s[0] == '+' {
        s.drop_first()
    } else {
        s
    }
}

/// The unsigned number written in `s`, if it is at most `max`: an optional
/// `+` followed by one or more decimal digits, and nothing else (no sign
/// `-`, no white space).
pub open spec fn spec_parse_unsigned(s: Seq<char>, max: nat) -> Option<nat> {
    let d = unsigned_digits(s);
    if d.len() > 0 && all_digits(d) && digits_value(d) <= max {
        Some(digits_value(d))
    } else {
        None
    }
}

/// Appending digits never makes a value smaller.
proof fn lemma_digits_value_grows(d: Seq<char>, i: int)
    requires
        0 <= i <= d.len(),
        all_digits(d),
    ensures
        digits_value(d.take(i)) <= digits_value(d),
    decreases d.len() - i,
{
    if i < d.len() {
        lemma_digits_value_grows(d, i + 1);
        assert(d.take(i + 1).drop_last() =~= d.take(i));
        assert(is_digit(d[i]));
    } else {
        assert(d.take(i) =~= d);
    }
}

/// Reads an unsigned decimal number no greater than `max`.
pub fn parse_unsigned(s: &str, max: u64) -> (res: Option<u64>)
    ensures
        match spec_parse_unsigned(s@, max as nat) {
            Some(n) => res == Some(n as u64),
            None => res is None,
        },
{
    let cs = chars_of(s);
    let start: usize = if cs.len() > 0 && cs[0] == '+' {
        1
    } else {
        0
    };
    let ghost d = unsigned_digits(s@);
    assert(d =~= cs@.skip(start as int));
    if start >= cs.len() {
        return None;
    }
    let mut i: usize = start;
    while i < cs.len()
        invariant
            start <= i <= cs@.len(),
            cs@ == s@,
            d == unsigned_digits(s@),
            d == cs@.skip(start as int),
            forall|j: int| start <= j < i ==> is_digit(#[trigger] cs@[j]),
        decreases cs@.len() - i,
    {
        if !('0' <= cs[i] && cs[i] <= '9') {
            assert(d[i - start] == cs@[i as int]);
            assert(!is_digit(d[i - start]));
            return None;
        }
        i = i + 1;
    }
    assert(all_digits(d)) by {
        assert forall|j: int| 0 <= j < d.len() implies is_digit(#[trigger] d[j]) by {
            assert(d[j] == cs@[start + j]);
        }
    }
    let mut acc: u64 = 0;
    let mut k: usize = start;
    assert(d.take(0) =~= Seq::<char>::empty());
    while k < cs.len()
        invariant
            start <= k <= cs@.len(),
            cs@ == s@,
            d == unsigned_digits(s@),
            d == cs@.skip(start as int),
            all_digits(d),
            acc as nat == digits_value(d.take(k - start)),
            acc <= max,
        decreases cs@.len() - k,
    {
        let c = cs[k];
        assert(d[k - start] == c);
        assert(is_digit(c));
        let digit: u64 = (c as u32 - '0' as u32) as u64;
        let next: u128 = (acc as u128) * 10 + (digit as u128);
        assert(d.take(k - start + 1).drop_last() =~= d.take(k - start));
        assert(d.take(k - start + 1).last() == c);
        assert(next == digits_value(d.take(k - start + 1)));
        if next > max as u128 {
            proof {
                lemma_digits_value_grows(d, k - start + 1);
            }
            return None;
        }
        acc = next as u64;
        k = k + 1;
    }
    assert(d.take(d.len() as int) =~= d);
    Some(acc)
}

/// The settings of the command bot.
#[derive(Debug, Clone)]
pub struct Config {
    pub host: String,
    pub port: u16,
    pub webhook_path: String,
    pub bot_secret: String,
    pub app_id: String,
    pub client_secret: String,
    pub cmd_prefix: String,
    pub data_path: String,
}

/// The text of an optional setting, or its default.
pub open spec fn or_default(v: Option<Seq<char>>, default: Seq<char>) -> Seq<char> {
    match v {
        Some(t) => t,
        None => default,
    }
}

/// The port setting: the number written, or 8080 when it is unset or not a
/// number from 0 to 65535.
pub open spec fn spec_port(v: Option<Seq<char>>) -> nat {
    match v {
        Some(t) => match spec_parse_unsigned(t, 65535) {
            Some(n) => n,
            None => 8080,
        },
        None => 8080,
    }
}

/// The view of an optional setting.
pub open spec fn opt_text(v: Option<&str>) -> Option<Seq<char>> {
    match v {
        Some(t) => Some(t@),
        None => None,
    }
}

fn text_or(v: Option<&str>, default: &str) -> (res: String)
    ensures
        res@ == or_default(opt_text(v), default@),
{
    match v {
        Some(t) => t.to_string(),
        None => default.to_string(),
    }
}

impl Config {
    /// The settings from the values of the environment variables
    /// `QQ_HOST` (default `0.0.0.0`), `QQ_PORT` (default 8080),
    /// `QQ_WEBHOOK_PATH` (default `/webhook`), `BOT_CMD_PREFIX` (default `/`)
    /// and `BOT_DATA_PATH` (default `data/kv.json`), `None` standing for an
    /// unset variable; the three secrets are required.
    pub fn from_vars(
        host: Option<&str>,
        port: Option<&str>,
        webhook_path: Option<&str>,
        bot_secret: &str,
        app_id: &str,
        client_secret: &str,
        cmd_prefix: Option<&str>,
        data_path: Option<&str>,
    ) -> (res: Self)
        ensures
            res.host@ == or_default(opt_text(host), "0.0.0.0"@),
            res.port == spec_port(opt_text(port)),
            res.webhook_path@ == or_default(opt_text(webhook_path), "/webhook"@),
            res.bot_secret@ == bot_secret@,
            res.app_id@ == app_id@,
            res.client_secret@ == client_secret@,
            res.cmd_prefix@ == or_default(opt_text(cmd_prefix), "/"@),
            res.data_path@ == or_default(opt_text(data_path), "data/kv.json"@),
    {
        let port_value: u16 = match port {
            Some(t) => match parse_unsigned(t, 65535) {
                Some(n) => n as u16,
                None => 8080,
            },
            None => 8080,
        };
        Config {
            host: text_or(host, "0.0.0.0"),
            port: port_value,
            webhook_path: text_or(webhook_path, "/webhook"),
            bot_secret: bot_secret.to_string(),
            app_id: app_id.to_string(),
            client_secret: client_secret.to_string(),
            cmd_prefix: text_or(cmd_prefix, "/"),
            data_path: text_or(data_path, "data/kv.json"),
        }
    }
}

/// The limits of the repeat filter from the values of
/// `QQ_C2C_DEDUP_TTL_SECS` and `QQ_C2C_DEDUP_CAP`: each the number written,
/// or 60 seconds and 2000 entries when unset or not a number.
pub open spec fn spec_dedup_limits(ttl: Option<Seq<char>>, cap: Option<Seq<char>>) -> (nat, nat) {
    (
        match ttl {
            Some(t) => match spec_parse_unsigned(t, u64::MAX as nat) {
                Some(n) => n,
                None => 60,
            },
            None => 60,
        },
        match cap {
            Some(t) => match spec_parse_unsigned(t, usize::MAX as nat) {
                Some(n) => n,
                None => 2000,
            },
            None => 2000,
        },
    )
}

/// Reads the time-to-live, in seconds, and the capacity of the repeat filter.
pub fn dedup_limits(ttl: Option<&str>, cap: Option<&str>) -> (res: (u64, usize))
    ensures
        (res.0 as nat, res.1 as nat) == spec_dedup_limits(opt_text(ttl), opt_text(cap)),
{
    let t: u64 = match ttl {
        Some(s) => match parse_unsigned(s, u64::MAX) {
            Some(n) => n,
            None => 60,
        },
        None => 60,
    };
    let c: usize = match cap {
        Some(s) => match parse_unsigned(s, usize::MAX as u64) {
            Some(n) => n as usize,
            None => 2000,
        },
        None => 2000,
    };
    (t, c)
}

} // verus!
