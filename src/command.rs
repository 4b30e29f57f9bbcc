//! Reading commands out of chat messages.

use vstd::prelude::*;
use vstd::string::{StrSliceExecFns, StringExecFns};

verus! {

/// Process-wide settings, read once at startup.
#[derive(Debug)]
pub struct Config {
    pub discord_token: String,
    pub command_prefix: String,
    /// When set, commands are taken from this channel only.
    pub command_channel: Option<u64>,
    pub cache_dir: String,
}

/// The commands that the bot acts on.
#[derive(Debug, PartialEq, Eq)]
pub enum Command {
    /// Stop the playback in the caller's voice location.
    Stop,
    /// Leave the caller's voice location.
    Quit,
    /// Look up the query and play what it finds in the caller's voice channel.
    Play(String),
}

/// Whether `c` has Unicode's White_Space property.
pub open spec fn is_space(c: char) -> bool {
    let u = c as u32;
    (0x9 <= u <= 0xd) || u == 0x20 || u == 0x85 || u == 0xa0 || u == 0x1680 || (0x2000 <= u
        <= 0x200a) || u == 0x2028 || u == 0x2029 || u == 0x202f || u == 0x205f || u == 0x3000
}

/// The maximal runs of non-space characters of `s`, in order.
pub open spec fn words(s: Seq<char>) -> Seq<Seq<char>>
    decreases s.len(),
{
    if s.len() == 0 {
        Seq::empty()
    } else {
        let w = words(s.drop_last());
        let c = s.last();
        if is_space(c) {
            w
        } else if s.len() >= 2 && !is_space(s[s.len() - 2]) {
            w.update(w.len() - 1, w.last().push(c))
        } else {
            w.push(seq![c])
        }
    }
}

/// The words of `ws` with one space between each two.
pub open spec fn join_words(ws: Seq<Seq<char>>) -> Seq<char>
    decreases ws.len(),
{
    if ws.len() == 0 {
        Seq::empty()
    } else if ws.len() == 1 {
        ws[0]
    } else {
        join_words(ws.drop_last()) + seq![' '] + ws.last()
    }
}

pub open spec fn strings_view(v: Seq<String>) -> Seq<Seq<char>> {
    v.map_values(|s: String| s@)
}

/// The command name and the argument text of message `content` under
/// `prefix`: the first word must start with the prefix, the name is that word
/// after the prefix's characters, and the arguments are the other words
/// joined by single spaces. A message with no words reads as one empty word.
pub open spec fn command_of(content: Seq<char>, prefix: Seq<char>) -> Option<
    (Seq<char>, Seq<char>),
> {
    let ws = words(content);
    let first = if ws.len() == 0 {
        Seq::<char>::empty()
    } else {
        ws[0]
    };
    if prefix.len() <= first.len() && first.subrange(0, prefix.len() as int) == prefix {
        Some(
            (
                first.subrange(prefix.len() as int, first.len() as int),
                if ws.len() == 0 {
                    Seq::<char>::empty()
                } else {
                    join_words(ws.subrange(1, ws.len() as int))
                },
            ),
        )
    } else {
        None
    }
}

/// The names of the commands; they are matched exactly, case included.
#[derive(Clone, Copy, Debug, PartialEq, Eq, Structural)]
pub enum CommandName {
    Stop,
    Quit,
    Play,
}

/// The command that `name` names, if any.
pub open spec fn recognized(name: Seq<char>) -> Option<CommandName> {
    if name == "stop"@ {
        Some(CommandName::Stop)
    } else if name == "quit"@ {
        Some(CommandName::Quit)
    } else if name == "play"@ {
        Some(CommandName::Play)
    } else {
        None
    }
}

/// `r` is the command that `name` and `args` stand for.
pub open spec fn command_for(r: Option<Command>, name: Seq<char>, args: Seq<char>) -> bool {
    match recognized(name) {
        Some(CommandName::Stop) => r == Some(Command::Stop),
        Some(CommandName::Quit) => r == Some(Command::Quit),
        Some(CommandName::Play) => r matches Some(Command::Play(q)) && q@ == args,
        None => r is None,
    }
}

/// Whether a message of `author` in `channel` may carry a command: the bot's
/// own messages never do, nor messages outside the command channel where one
/// is configured.
pub open spec fn accepted(
    command_channel: Option<u64>,
    bot_id: u64,
    author: u64,
    channel: u64,
) -> bool {
    author != bot_id && match command_channel {
        Some(c) => c == channel,
        None => true,
    }
}

/// Whether `c` has Unicode's White_Space property.
pub fn is_whitespace(c: char) -> (r: bool)
    ensures
        r == is_space(c),
{
    let u = c as u32;
    (0x9 <= u && u <= 0xd) || u == 0x20 || u == 0x85 || u == 0xa0 || u == 0x1680 || (0x2000 <= u
        && u <= 0x200a) || u == 0x2028 || u == 0x2029 || u == 0x202f || u == 0x205f || u
        == 0x3000
}

/// The words of `s`: its maximal runs of non-space characters.
pub fn split_words(s: &str) -> (r: Vec<String>)
    ensures
        strings_view(r@) == words(s@),
{
    let n = s.unicode_len();
    let mut done: Vec<String> = Vec::new();
    let mut start: usize = 0;
    let mut in_word = false;
    let mut i: usize = 0;
    assert(s@.subrange(0, 0) =~= Seq::<char>::empty());
    assert(strings_view(done@) =~= Seq::<Seq<char>>::empty());
    while i < n
        invariant
            n == s@.len(),
            i <= n,
            in_word ==> start < i && !is_space(s@[i - 1]) && words(s@.subrange(0, i as int))
                == strings_view(done@).push(s@.subrange(start as int, i as int)),
            !in_word ==> (i > 0 ==> is_space(s@[i - 1])) && words(s@.subrange(0, i as int))
                == strings_view(done@),
        decreases n - i,
    {
        let c = s.get_char(i);
        let ghost pre = s@.subrange(0, i as int);
        let ghost cur = s@.subrange(0, i + 1);
        assert(cur.drop_last() =~= pre);
        assert(cur.last() == c);
        if is_whitespace(c) {
            if in_word {
                let w = String::from_str(s.substring_char(start, i));
                done.push(w);
                assert(strings_view(done@) =~= strings_view(done@.drop_last()).push(w@));
                in_word = false;
            }
        } else if !in_word {
            start = i;
            in_word = true;
            assert(s@.subrange(start as int, i + 1) =~= seq![c]);
        } else {
            assert(s@.subrange(start as int, i + 1) =~= s@.subrange(start as int, i as int).push(
                c,
            ));
            assert(cur[cur.len() - 2] == s@[i - 1]);
        }
        i = i + 1;
    }
    if in_word {
        let w = String::from_str(s.substring_char(start, n));
        done.push(w);
        assert(strings_view(done@) =~= strings_view(done@.drop_last()).push(w@));
    }
    assert(s@.subrange(0, n as int) =~= s@);
    done
}

/// Whether `s` starts with `prefix`.
pub fn starts_with(s: &str, prefix: &str) -> (r: bool)
    ensures
        r == (prefix@.len() <= s@.len() && s@.subrange(0, prefix@.len() as int) == prefix@),
{
    let n = prefix.unicode_len();
    if n > s.unicode_len() {
        return false;
    }
    let mut i: usize = 0;
    while i < n
        invariant
            n == prefix@.len(),
            n <= s@.len(),
            i <= n,
            forall|j: int| 0 <= j < i ==> s@[j] == prefix@[j],
        decreases n - i,
    {
        if s.get_char(i) != prefix.get_char(i) {
            assert(s@.subrange(0, n as int)[i as int] != prefix@[i as int]);
            return false;
        }
        i = i + 1;
    }
    assert(s@.subrange(0, n as int) =~= prefix@);
    true
}

/// The words of `ws` from the second on, with one space between each two.
pub fn join_rest(ws: &Vec<String>) -> (r: String)
    ensures
        ws@.len() > 0 ==> r@ == join_words(strings_view(ws@).subrange(1, ws@.len() as int)),
        ws@.len() == 0 ==> r@ == Seq::<char>::empty(),
{
    let mut r = String::new();
    if ws.len() < 2 {
        if ws.len() == 1 {
            assert(strings_view(ws@).subrange(1, 1) =~= Seq::<Seq<char>>::empty());
        }
        return r;
    }
    let ghost wv = strings_view(ws@);
    r.append(ws[1].as_str());
    assert(wv.subrange(1, 2).drop_last() =~= Seq::<Seq<char>>::empty());
    let mut i: usize = 2;
    while i < ws.len()
        invariant
            2 <= i <= ws@.len(),
            wv == strings_view(ws@),
            r@ == join_words(wv.subrange(1, i as int)),
        decreases ws@.len() - i,
    {
        assert(wv.subrange(1, i + 1).drop_last() =~= wv.subrange(1, i as int));
        r.append(" ");
        r.append(ws[i].as_str());
        proof {
            reveal_strlit(" ");
        }
        assert(r@ =~= join_words(wv.subrange(1, i as int)) + seq![' '] + wv[i as int]);
        i = i + 1;
    }
    r
}

/// The command name and argument text of `content`, when its first word
/// starts with `prefix`.
pub fn parse_command(content: &str, prefix: &str) -> (r: Option<(String, String)>)
    ensures
        r matches Some((name, args)) ==> command_of(content@, prefix@) == Some((name@, args@)),
        r is None ==> command_of(content@, prefix@) is None,
{
    let ws = split_words(content);
    let ghost wv = strings_view(ws@);
    let first: &str = if ws.len() == 0 {
        ""
    } else {
        ws[0].as_str()
    };
    proof {
        reveal_strlit("");
        if ws@.len() > 0 {
            assert(wv[0] == ws@[0]@);
        } else {
            assert(first@ =~= Seq::<char>::empty());
        }
        assert(first@ == (if wv.len() == 0 {
            Seq::<char>::empty()
        } else {
            wv[0]
        }));
    }
    if !starts_with(first, prefix) {
        return None;
    }
    let n = first.unicode_len();
    let name = String::from_str(first.substring_char(prefix.unicode_len(), n));
    let args = join_rest(&ws);
    Some((name, args))
}

/// Whether `a` and `b` hold the same characters.
fn same_text(a: &str, b: &str) -> (r: bool)
    ensures
        r == (a@ == b@),
{
    let n = a.unicode_len();
    if n != b.unicode_len() {
        return false;
    }
    let mut i: usize = 0;
    while i < n
        invariant
            n == a@.len(),
            n == b@.len(),
            i <= n,
            forall|j: int| 0 <= j < i ==> a@[j] == b@[j],
        decreases n - i,
    {
        if a.get_char(i) != b.get_char(i) {
            return false;
        }
        i = i + 1;
    }
    assert(a@ =~= b@);
    true
}

/// The command that `name` and `args` stand for, if the name is one of ours.
pub fn recognize(name: &str, args: String) -> (r: Option<Command>)
    ensures
        command_for(r, name@, args@),
{
    proof {
        reveal_strlit("stop");
        reveal_strlit("quit");
        reveal_strlit("play");
    }
    if same_text(name, "stop") {
        Some(Command::Stop)
    } else if same_text(name, "quit") {
        Some(Command::Quit)
    } else if same_text(name, "play") {
        Some(Command::Play(args))
    } else {
        None
    }
}

/// Whether a message of `author` in `channel` may carry a command.
pub fn accepts(config: &Config, bot_id: u64, author: u64, channel: u64) -> (r: bool)
    ensures
        r == accepted(config.command_channel, bot_id, author, channel),
{
    if author == bot_id {
        return false;
    }
    match config.command_channel {
        Some(c) => c == channel,
        None => true,
    }
}

/// The command carried by a message, if any: the message must be accepted,
/// its first word must start with the configured prefix, and the rest of that
/// word must name one of the commands.
pub fn command_in(config: &Config, bot_id: u64, author: u64, channel: u64, content: &str) -> (r:
    Option<Command>)
    ensures
        !accepted(config.command_channel, bot_id, author, channel) ==> r is None,
        command_of(content@, config.command_prefix@) is None ==> r is None,
        accepted(config.command_channel, bot_id, author, channel) ==> (command_of(
            content@,
            config.command_prefix@,
        ) matches Some((name, args)) ==> command_for(r, name, args)),
{
    if !accepts(config, bot_id, author, channel) {
        return None;
    }
    match parse_command(content, config.command_prefix.as_str()) {
        Some((name, args)) => recognize(name.as_str(), args),
        None => None,
    }
}

} // verus!
