//! Parsing of prefixed chat commands such as `/set key value`.

use crate::bot::store::{spec_set, KvStore, StoreError};
use crate::text::{
    chars_eq, chars_of, extend_chars, extend_str, join, occurs_at, seq_contains, string_of,
};
use crate::words::{
    all_ascii, ascii_lower, fields, is_white_space, law_fields_of_word, law_fields_skip_separator,
    law_trim_keeps_inner_text, lowercase, trim_end_ws, no_sep, split_fields, to_lowercase, trim, trim_exec,
    views, Separators,
};
use vstd::prelude::*;

verus! {

/// A command of the bot.
#[derive(Debug, Clone)]
pub enum Command {
    Ping,
    Help,
    Get { key: String },
    Put { key: String, value: String },
    Unknown,
}

/// The model of a command, with its texts as character sequences.
pub enum CommandView {
    Ping,
    Help,
    Get { key: Seq<char> },
    Put { key: Seq<char>, value: Seq<char> },
    Unknown,
}

impl View for Command {
    type V = CommandView;

    open spec fn view(&self) -> CommandView {
        match self {
            Command::Ping => CommandView::Ping,
            Command::Help => CommandView::Help,
            Command::Get { key } => CommandView::Get { key: key@ },
            Command::Put { key, value } => CommandView::Put { key: key@, value: value@ },
            Command::Unknown => CommandView::Unknown,
        }
    }
}

/// `prefix` is a prefix of `s`.
pub open spec fn starts_with(s: Seq<char>, prefix: Seq<char>) -> bool {
    prefix.len() <= s.len() && s.subrange(0, prefix.len() as int) == prefix
}

/// The command written after `prefix` in `content`: nothing unless `content`
/// starts with the prefix; help when nothing but white space follows it;
/// otherwise decided by the first word, compared after lower-casing, with
/// `get` taking a key and `set` a key and a value made of the remaining words
/// joined by single spaces.
pub open spec fn spec_parse_command(prefix: Seq<char>, content: Seq<char>) -> Option<CommandView> {
    if !starts_with(content, prefix) {
        None
    } else {
        let raw = trim(content.skip(prefix.len() as int));
        if raw.len() == 0 {
            Some(CommandView::Help)
        } else {
            let parts = fields(raw, Separators::WhiteSpace);
            if parts.len() == 0 {
                None
            } else {
                Some(spec_command_of(lowercase(parts[0]), parts))
            }
        }
    }
}

/// The command selected by the words `parts` of a command line whose first
/// word, lower-cased, is `cmd`: `get` takes a key and `set` a key and a value
/// made of the remaining words joined by single spaces.
pub open spec fn spec_command_of(cmd: Seq<char>, parts: Seq<Seq<char>>) -> CommandView {
    if cmd == "ping"@ {
        CommandView::Ping
    } else if cmd == "help"@ {
        CommandView::Help
    } else if cmd == "get"@ {
        if parts.len() >= 2 {
            CommandView::Get { key: parts[1] }
        } else {
            CommandView::Unknown
        }
    } else if cmd == "set"@ {
        if parts.len() < 3 {
            CommandView::Unknown
        } else {
            CommandView::Put { key: parts[1], value: join(parts.skip(2), " "@) }
        }
    } else {
        CommandView::Unknown
    }
}

/// The view of an optional command.
pub open spec fn opt_view(c: Option<Command>) -> Option<CommandView> {
    match c {
        Some(c) => Some(c@),
        None => None,
    }
}

/// Joins `parts[from..]` with `sep` between neighbours.
fn join_from(parts: &Vec<Vec<char>>, from: usize, sep: &[char]) -> (res: Vec<char>)
    requires
        from <= parts@.len(),
    ensures
        res@ == join(views(parts@).skip(from as int), sep@),
{
    let ghost all = views(parts@);
    let mut out: Vec<char> = Vec::new();
    let mut i: usize = from;
    assert(all.subrange(from as int, from as int) =~= Seq::<Seq<char>>::empty());
    while i < parts.len()
        invariant
            all == views(parts@),
            from <= i <= parts@.len(),
            out@ == join(all.subrange(from as int, i as int), sep@),
        decreases parts@.len() - i,
    {
        let ghost prev = all.subrange(from as int, i as int);
        let ghost next = all.subrange(from as int, i + 1);
        assert(next.drop_last() =~= prev);
        assert(next.last() == parts@[i as int]@);
        if i > from {
            extend_chars(&mut out, sep);
        } else {
            assert(prev.len() == 0);
            assert(out@ =~= Seq::<char>::empty());
        }
        extend_chars(&mut out, parts[i].as_slice());
        proof {
            if i > from {
                assert(out@ =~= join(prev, sep@) + sep@ + next.last());
            } else {
                assert(next.len() == 1);
                assert(out@ =~= next[0]);
            }
        }
        i = i + 1;
    }
    assert(all.subrange(from as int, parts@.len() as int) =~= all.skip(from as int));
    out
}

/// Parses the command that follows `prefix` in `content`.
pub fn parse_command(prefix: &str, content: &str) -> (res: Option<Command>)
    ensures
        opt_view(res) == spec_parse_command(prefix@, content@),
{
    let c = chars_of(content);
    let p = chars_of(prefix);
    if p.len() > c.len() {
        return None;
    }
    let mut head: Vec<char> = Vec::new();
    let mut i: usize = 0;
    while i < p.len()
        invariant
            p@.len() <= c@.len(),
            i <= p@.len(),
            head@ == c@.subrange(0, i as int),
        decreases p@.len() - i,
    {
        head.push(c[i]);
        i = i + 1;
        assert(head@ =~= c@.subrange(0, i as int));
    }
    if !chars_eq(head.as_slice(), p.as_slice()) {
        return None;
    }
    let mut rest: Vec<char> = Vec::new();
    let mut j: usize = p.len();
    while j < c.len()
        invariant
            p@.len() <= j <= c@.len(),
            rest@ == c@.subrange(p@.len() as int, j as int),
        decreases c@.len() - j,
    {
        rest.push(c[j]);
        j = j + 1;
        assert(rest@ =~= c@.subrange(p@.len() as int, j as int));
    }
    assert(rest@ =~= content@.skip(prefix@.len() as int));
    let raw = trim_exec(rest.as_slice());
    if raw.len() == 0 {
        return Some(Command::Help);
    }
    let parts = split_fields(raw.as_slice(), Separators::WhiteSpace);
    if parts.len() == 0 {
        return None;
    }
    let first = string_of(parts[0].as_slice());
    let lowered = to_lowercase(first.as_str());
    assert(lowered@ == lowercase(parts@[0]@));
    Some(command_of(lowered.as_str(), &parts))
}

/// The command selected by the words of a command line, given its first
/// word lower-cased.
pub fn command_of(cmd: &str, parts: &Vec<Vec<char>>) -> (res: Command)
    ensures
        res@ == spec_command_of(cmd@, views(parts@)),
{
    let cmd = chars_of(cmd);
    let ping = chars_of("ping");
    let help = chars_of("help");
    let get = chars_of("get");
    let set = chars_of("set");
    if chars_eq(cmd.as_slice(), ping.as_slice()) {
        Command::Ping
    } else if chars_eq(cmd.as_slice(), help.as_slice()) {
        Command::Help
    } else if chars_eq(cmd.as_slice(), get.as_slice()) {
        if parts.len() >= 2 {
            Command::Get { key: string_of(parts[1].as_slice()) }
        } else {
            Command::Unknown
        }
    } else if chars_eq(cmd.as_slice(), set.as_slice()) {
        if parts.len() < 3 {
            Command::Unknown
        } else {
            let space = chars_of(" ");
            let value = join_from(parts, 2, space.as_slice());
            Command::Put { key: string_of(parts[1].as_slice()), value: string_of(value.as_slice()) }
        }
    } else {
        Command::Unknown
    }
}

/// The text after the prefix of a prefixed line is the line itself.
proof fn lemma_after_prefix(p: Seq<char>, line: Seq<char>)
    ensures
        starts_with(p + line, p),
        (p + line).skip(p.len() as int) == line,
{
    assert((p + line).subrange(0, p.len() as int) =~= p);
    assert((p + line).skip(p.len() as int) =~= line);
}

/// The lower-case form of a word of lower-case ASCII letters is the word.
proof fn lemma_lowercase_word(w: Seq<char>)
    requires
        forall|i: int| 0 <= i < w.len() ==> 'a' <= #[trigger] w[i] && w[i] <= 'z',
    ensures
        lowercase(w) == w,
{
    assert(all_ascii(w));
    assert(w.map_values(|c: char| ascii_lower(c)) =~= w);
}

/// A line that is the prefix followed by `set`, one key word and one value
/// word is a write of that value under that key.
pub proof fn law_set_is_write(p: Seq<char>, k: Seq<char>, v: Seq<char>)
    requires
        k.len() > 0,
        v.len() > 0,
        no_sep(k, Separators::WhiteSpace),
        no_sep(v, Separators::WhiteSpace),
    ensures
        spec_parse_command(p, p + "set "@ + k + " "@ + v) == Some(CommandView::Put { key: k, value: v }),
{
    let set3 = seq!['s', 'e', 't'];
    let sp = seq![' '];
    let line = set3 + (sp + (k + (sp + v)));
    reveal_strlit("set ");
    reveal_strlit(" ");
    assert(p + "set "@ + k + " "@ + v =~= p + line);
    lemma_after_prefix(p, line);
    assert(line[0] == 's');
    assert(line.last() == v[v.len() - 1]);
    assert(!is_white_space(v[v.len() - 1]));
    law_trim_keeps_inner_text(line);
    law_fields_of_word(set3, sp + (k + (sp + v)), Separators::WhiteSpace);
    law_fields_skip_separator(' ', k + (sp + v), Separators::WhiteSpace);
    law_fields_of_word(k, sp + v, Separators::WhiteSpace);
    law_fields_skip_separator(' ', v, Separators::WhiteSpace);
    law_fields_of_word(v, Seq::<char>::empty(), Separators::WhiteSpace);
    assert(v + Seq::<char>::empty() =~= v);
    assert(fields(Seq::<char>::empty(), Separators::WhiteSpace) =~= Seq::<Seq<char>>::empty());
    let parts = fields(line, Separators::WhiteSpace);
    assert(parts =~= seq![set3, k, v]);
    lemma_lowercase_word(set3);
    reveal_strlit("set");
    reveal_strlit("ping");
    reveal_strlit("help");
    reveal_strlit("get");
    assert(set3 =~= "set"@);
    assert(set3 != "ping"@);
    assert(set3 != "help"@ && set3 != "get"@) by {
        assert(set3[0] != "help"@[0]);
        assert(set3[0] != "get"@[0]);
    }
    assert(parts.skip(2) =~= seq![v]);
}

/// A line that is the prefix followed by `set`, one key word and two value
/// words writes the two words, joined by one space, under the key.
pub proof fn law_set_joins_value_words(p: Seq<char>, k: Seq<char>, v1: Seq<char>, v2: Seq<char>)
    requires
        k.len() > 0,
        v1.len() > 0,
        v2.len() > 0,
        no_sep(k, Separators::WhiteSpace),
        no_sep(v1, Separators::WhiteSpace),
        no_sep(v2, Separators::WhiteSpace),
    ensures
        spec_parse_command(p, p + "set "@ + k + " "@ + v1 + " "@ + v2) == Some(
            CommandView::Put { key: k, value: v1 + " "@ + v2 },
        ),
{
    let set3 = seq!['s', 'e', 't'];
    let sp = seq![' '];
    let line = set3 + (sp + (k + (sp + (v1 + (sp + v2)))));
    reveal_strlit("set ");
    reveal_strlit(" ");
    assert(p + "set "@ + k + " "@ + v1 + " "@ + v2 =~= p + line);
    lemma_after_prefix(p, line);
    assert(line[0] == 's');
    assert(line.last() == v2[v2.len() - 1]);
    assert(!is_white_space(v2[v2.len() - 1]));
    law_trim_keeps_inner_text(line);
    law_fields_of_word(set3, sp + (k + (sp + (v1 + (sp + v2)))), Separators::WhiteSpace);
    law_fields_skip_separator(' ', k + (sp + (v1 + (sp + v2))), Separators::WhiteSpace);
    law_fields_of_word(k, sp + (v1 + (sp + v2)), Separators::WhiteSpace);
    law_fields_skip_separator(' ', v1 + (sp + v2), Separators::WhiteSpace);
    law_fields_of_word(v1, sp + v2, Separators::WhiteSpace);
    law_fields_skip_separator(' ', v2, Separators::WhiteSpace);
    law_fields_of_word(v2, Seq::<char>::empty(), Separators::WhiteSpace);
    assert(v2 + Seq::<char>::empty() =~= v2);
    assert(fields(Seq::<char>::empty(), Separators::WhiteSpace) =~= Seq::<Seq<char>>::empty());
    let parts = fields(line, Separators::WhiteSpace);
    assert(parts =~= seq![set3, k, v1, v2]);
    lemma_lowercase_word(set3);
    reveal_strlit("set");
    reveal_strlit("ping");
    reveal_strlit("help");
    reveal_strlit("get");
    assert(set3 =~= "set"@);
    assert(set3 != "ping"@);
    assert(set3 != "help"@ && set3 != "get"@) by {
        assert(set3[0] != "help"@[0]);
        assert(set3[0] != "get"@[0]);
    }
    let rest = parts.skip(2);
    assert(rest =~= seq![v1, v2]);
    assert(rest.drop_last() =~= seq![v1]);
    assert(join(rest.drop_last(), " "@) == v1);
    assert(rest.last() == v2);
    assert(join(rest, " "@) == join(rest.drop_last(), " "@) + " "@ + rest.last());
}

/// A line that is the prefix followed by `get` and one key word reads that
/// key.
pub proof fn law_get_is_read(p: Seq<char>, k: Seq<char>)
    requires
        k.len() > 0,
        no_sep(k, Separators::WhiteSpace),
    ensures
        spec_parse_command(p, p + "get "@ + k) == Some(CommandView::Get { key: k }),
{
    let get3 = seq!['g', 'e', 't'];
    let sp = seq![' '];
    let line = get3 + (sp + k);
    reveal_strlit("get ");
    assert(p + "get "@ + k =~= p + line);
    lemma_after_prefix(p, line);
    assert(line[0] == 'g');
    assert(line.last() == k[k.len() - 1]);
    assert(!is_white_space(k[k.len() - 1]));
    law_trim_keeps_inner_text(line);
    law_fields_of_word(get3, sp + k, Separators::WhiteSpace);
    law_fields_skip_separator(' ', k, Separators::WhiteSpace);
    law_fields_of_word(k, Seq::<char>::empty(), Separators::WhiteSpace);
    assert(k + Seq::<char>::empty() =~= k);
    assert(fields(Seq::<char>::empty(), Separators::WhiteSpace) =~= Seq::<Seq<char>>::empty());
    let parts = fields(line, Separators::WhiteSpace);
    assert(parts =~= seq![get3, k]);
    lemma_lowercase_word(get3);
    reveal_strlit("get");
    reveal_strlit("ping");
    reveal_strlit("help");
    assert(get3 =~= "get"@);
    assert(get3 != "ping"@);
    assert(get3 != "help"@) by {
        assert(get3[0] != "help"@[0]);
    }
}

/// The prefix followed by `ping` is the ping command, whatever the case of
/// its letters.
pub proof fn law_ping_any_case(p: Seq<char>)
    ensures
        spec_parse_command(p, p + "ping"@) == Some(CommandView::Ping),
        spec_parse_command(p, p + "PING"@) == Some(CommandView::Ping),
{
    reveal_strlit("ping");
    reveal_strlit("PING");
    let ping = "ping"@;
    let upper = "PING"@;
    lemma_after_prefix(p, ping);
    lemma_after_prefix(p, upper);
    law_trim_keeps_inner_text(ping);
    law_trim_keeps_inner_text(upper);
    law_fields_of_word(ping, Seq::<char>::empty(), Separators::WhiteSpace);
    law_fields_of_word(upper, Seq::<char>::empty(), Separators::WhiteSpace);
    assert(ping + Seq::<char>::empty() =~= ping);
    assert(upper + Seq::<char>::empty() =~= upper);
    assert(fields(Seq::<char>::empty(), Separators::WhiteSpace) =~= Seq::<Seq<char>>::empty());
    lemma_lowercase_word(ping);
    assert(all_ascii(upper));
    assert(upper.map_values(|c: char| ascii_lower(c)) =~= ping);
}

/// The prefix alone, or followed only by white space, asks for help.
pub proof fn law_bare_prefix_is_help(p: Seq<char>)
    ensures
        spec_parse_command(p, p) == Some(CommandView::Help),
        spec_parse_command(p, p + " "@) == Some(CommandView::Help),
{
    lemma_after_prefix(p, Seq::<char>::empty());
    assert(p + Seq::<char>::empty() =~= p);
    reveal_strlit(" ");
    lemma_after_prefix(p, " "@);
    let sp = " "@;
    assert(trim_end_ws(sp.drop_last()) == sp.drop_last());
}

/// The help text names every command after the configured prefix.
pub proof fn law_help_names_commands(p: Seq<char>)
    ensures
        seq_contains(spec_help_text(p), p + "ping"@),
        seq_contains(spec_help_text(p), p + "help"@),
        seq_contains(spec_help_text(p), p + "get <key>"@),
        seq_contains(spec_help_text(p), p + "set <key> <value>"@),
{
    let h = spec_help_text(p);
    let head = "指令:\n"@;
    let pn = "ping\n"@;
    let hn = "help\n"@;
    let gn = "get <key>\n"@;
    let sv = "set <key> <value>"@;
    let nl = seq!['\n'];
    assert(pn =~= "ping"@ + nl) by {
        reveal_strlit("ping\n");
        reveal_strlit("ping");
    }
    assert(hn =~= "help"@ + nl) by {
        reveal_strlit("help\n");
        reveal_strlit("help");
    }
    assert(gn =~= "get <key>"@ + nl) by {
        reveal_strlit("get <key>\n");
        reveal_strlit("get <key>");
    }
    assert(h == head + p + pn + p + hn + p + gn + p + sv);
    let a1 = head;
    let a2 = head + p + pn;
    let a3 = a2 + p + hn;
    let a4 = a3 + p + gn;
    assert(h =~= a1 + (p + "ping"@) + (nl + p + hn + p + gn + p + sv));
    lemma_occurs_in_middle(a1, p + "ping"@, nl + p + hn + p + gn + p + sv);
    assert(h =~= a2 + (p + "help"@) + (nl + p + gn + p + sv));
    lemma_occurs_in_middle(a2, p + "help"@, nl + p + gn + p + sv);
    assert(h =~= a3 + (p + "get <key>"@) + (nl + p + sv));
    lemma_occurs_in_middle(a3, p + "get <key>"@, nl + p + sv);
    assert(h =~= a4 + (p + sv) + Seq::<char>::empty());
    lemma_occurs_in_middle(a4, p + sv, Seq::<char>::empty());
}

/// `x` occurs in `a + x + b` right after `a`.
proof fn lemma_occurs_in_middle(a: Seq<char>, x: Seq<char>, b: Seq<char>)
    ensures
        occurs_at(a + x + b, x, a.len() as int),
        seq_contains(a + x + b, x),
{
    assert((a + x + b).subrange(a.len() as int, (a.len() + x.len()) as int) =~= x);
}

/// The help text for a command prefix.
pub open spec fn spec_help_text(prefix: Seq<char>) -> Seq<char> {
    "指令:\n"@ + prefix + "ping\n"@ + prefix + "help\n"@ + prefix + "get <key>\n"@ + prefix
        + "set <key> <value>"@
}

/// Lists the commands of the bot, each after the given prefix.
pub fn help_text(prefix: &str) -> (res: String)
    ensures
        res@ == spec_help_text(prefix@),
{
    let mut out: Vec<char> = Vec::new();
    extend_str(&mut out, "指令:\n");
    extend_str(&mut out, prefix);
    extend_str(&mut out, "ping\n");
    extend_str(&mut out, prefix);
    extend_str(&mut out, "help\n");
    extend_str(&mut out, prefix);
    extend_str(&mut out, "get <key>\n");
    extend_str(&mut out, prefix);
    extend_str(&mut out, "set <key> <value>");
    string_of(out.as_slice())
}

/// What the bot does with a command: answer with a text, or, after a write
/// to the store, save the store and then answer.
#[derive(Debug)]
pub enum CommandAction {
    /// Answer with this text.
    Reply(String),
    /// The value under this key was written; the store must now be saved,
    /// and `saved_reply` gives the answer from the outcome.
    Persist { key: String },
}

/// The answer to a read of `key` that found `value`, or found nothing.
pub open spec fn spec_get_reply(key: Seq<char>, value: Option<Seq<char>>) -> Seq<char> {
    match value {
        Some(v) => key + " = "@ + v,
        None => "未找到键: "@ + key,
    }
}

/// The answer to a write of `key`, from the outcome of writing and saving.
pub open spec fn spec_saved_reply(key: Seq<char>, ok: bool) -> Seq<char> {
    if ok {
        "已保存: "@ + key
    } else {
        "写入失败，请稍后再试"@
    }
}

/// The answer to a write of `key` once the store was saved, or failed to be.
pub fn saved_reply(key: &str, outcome: &Result<(), StoreError>) -> (res: String)
    ensures
        res@ == spec_saved_reply(key@, outcome is Ok),
{
    match outcome {
        Ok(()) => {
            let mut out = chars_of("已保存: ");
            extend_str(&mut out, key);
            string_of(out.as_slice())
        },
        Err(_) => "写入失败，请稍后再试".to_string(),
    }
}

/// What the bot does with `command`, and how the store changes: `ping` is
/// answered with `pong`; help and unknown commands with the help text; a read
/// with the value found or a note that the key is missing; a write that the
/// store refuses with the failure text, and an accepted write asks for the
/// store to be saved.
pub open spec fn spec_handle(command: CommandView, prefix: Seq<char>, m: Map<Seq<char>, Seq<char>>) -> (
    Result<Seq<char>, Seq<char>>,
    Map<Seq<char>, Seq<char>>,
) {
    match command {
        CommandView::Ping => (Ok("pong"@), m),
        CommandView::Help | CommandView::Unknown => (Ok(spec_help_text(prefix)), m),
        CommandView::Get { key } => (
            Ok(
                spec_get_reply(
                    key,
                    if m.dom().contains(key) {
                        Some(m[key])
                    } else {
                        None
                    },
                ),
            ),
            m,
        ),
        CommandView::Put { key, value } => match spec_set(m, key, value) {
            Ok(m2) => (Err(key), m2),
            Err(_) => (Ok(spec_saved_reply(key, false)), m),
        },
    }
}

/// The view of an action: `Ok` holds an answer, `Err` the key of a write
/// that awaits saving.
pub open spec fn action_view(a: CommandAction) -> Result<Seq<char>, Seq<char>> {
    match a {
        CommandAction::Reply(t) => Ok(t@),
        CommandAction::Persist { key } => Err(key@),
    }
}

/// Carries out `command` on the in-memory store.
pub fn handle_command(command: Command, prefix: &str, store: &mut KvStore) -> (res: CommandAction)
    requires
        old(store).wf(),
    ensures
        final(store).wf(),
        (action_view(res), final(store)@) == spec_handle(command@, prefix@, old(store)@),
{
    match command {
        Command::Ping => CommandAction::Reply("pong".to_string()),
        Command::Help => CommandAction::Reply(help_text(prefix)),
        Command::Unknown => CommandAction::Reply(help_text(prefix)),
        Command::Get { key } => {
            let found = store.get(key.as_str());
            match found {
                Some(v) => {
                    let mut out = chars_of(key.as_str());
                    extend_str(&mut out, " = ");
                    extend_str(&mut out, v.as_str());
                    CommandAction::Reply(string_of(out.as_slice()))
                },
                None => {
                    let mut out = chars_of("未找到键: ");
                    extend_str(&mut out, key.as_str());
                    CommandAction::Reply(string_of(out.as_slice()))
                },
            }
        },
        Command::Put { key, value } => {
            match store.set(key.as_str(), value.as_str()) {
                Ok(()) => CommandAction::Persist { key },
                Err(e) => CommandAction::Reply(saved_reply(key.as_str(), &Err(e))),
            }
        },
    }
}

} // verus!
