//! What the bot does with an incoming private message.

use crate::bot::access::{spec_allowed, AccessControl};
use crate::bot::command::{opt_view, parse_command, spec_parse_command, starts_with, Command, CommandView};
use crate::bot::dedup::{spec_check, Deduper};
use crate::text::{chars_eq, chars_of, string_of};
use crate::words::{trim, trim_exec};
use vstd::prelude::*;

verus! {

/// The text of a message with the white space at its ends removed; an
/// absent text counts as empty.
pub open spec fn trimmed_content(content: Option<Seq<char>>) -> Seq<char> {
    match content {
        Some(c) => trim(c),
        None => seq![],
    }
}

/// The command a message asks for, or `None` when the bot ignores it. In
/// order: an empty message, a sender who is not allowed, a text without the
/// command prefix and a message id seen within the time-to-live are ignored;
/// otherwise the command is parsed from the trimmed text, an unreadable one
/// counting as unknown. Only a message that passes the first three checks is
/// recorded by the duplicate filter.
pub open spec fn spec_screen(
    content: Option<Seq<char>>,
    allow: Set<Seq<char>>,
    deny: Set<Seq<char>>,
    sender: Seq<char>,
    prefix: Seq<char>,
    seen: (bool, Seq<(Seq<char>, u64)>),
) -> Option<CommandView> {
    let text = trimmed_content(content);
    if text.len() == 0 || !spec_allowed(allow, deny, sender) || !starts_with(text, prefix) {
        None
    } else if seen.0 {
        None
    } else {
        match spec_parse_command(prefix, text) {
            Some(c) => Some(c),
            None => Some(CommandView::Unknown),
        }
    }
}

/// Decides what to do with a private message from `sender` with id `msg_id`
/// received at `now`.
pub fn screen_message(
    content: Option<&str>,
    sender: &str,
    msg_id: &str,
    prefix: &str,
    access: &AccessControl,
    deduper: &mut Deduper,
    now: u64,
) -> (res: Option<Command>)
    requires
        old(deduper).wf(),
    ensures
        final(deduper).wf(),
        final(deduper).spec_ttl() == old(deduper).spec_ttl(),
        final(deduper).spec_cap() == old(deduper).spec_cap(),
        ({
            let text = trimmed_content(
                match content {
                    Some(c) => Some(c@),
                    None => None,
                },
            );
            let checked = text.len() > 0 && spec_allowed(access.allow_set(), access.deny_set(), sender@)
                && starts_with(text, prefix@);
            let seen = spec_check(old(deduper).stamps(), msg_id@, now, old(deduper).spec_ttl(), old(deduper).spec_cap());
            &&& opt_view(res) == spec_screen(
                match content {
                    Some(c) => Some(c@),
                    None => None,
                },
                access.allow_set(),
                access.deny_set(),
                sender@,
                prefix@,
                seen,
            )
            &&& checked ==> final(deduper).stamps() == seen.1
            &&& !checked ==> final(deduper).stamps() == old(deduper).stamps()
        }),
{
    let raw = match content {
        Some(c) => chars_of(c),
        None => Vec::new(),
    };
    let text = trim_exec(raw.as_slice());
    if text.len() == 0 {
        return None;
    }
    if !access.allowed(sender) {
        return None;
    }
    let p = chars_of(prefix);
    if p.len() > text.len() {
        return None;
    }
    let mut head: Vec<char> = Vec::new();
    let mut i: usize = 0;
    while i < p.len()
        invariant
            p@.len() <= text@.len(),
            i <= p@.len(),
            head@ == text@.subrange(0, i as int),
        decreases p@.len() - i,
    {
        head.push(text[i]);
        i = i + 1;
        assert(head@ =~= text@.subrange(0, i as int));
    }
    if !chars_eq(head.as_slice(), p.as_slice()) {
        return None;
    }
    if deduper.is_duplicate(msg_id, now) {
        return None;
    }
    let t = string_of(text.as_slice());
    match parse_command(prefix, t.as_str()) {
        Some(c) => Some(c),
        None => Some(Command::Unknown),
    }
}

} // verus!
