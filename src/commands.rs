//! The text commands of the chat surface: splitting a message into words,
//! and reading the command those words name.
use vstd::prelude::*;

verus! {

/// Unicode `White_Space` characters, which separate the words of a message.
pub open spec fn is_space(c: char) -> bool {
    ('\u{9}' <= c && c <= '\u{d}') || c == ' ' || c == '\u{85}' || c == '\u{a0}' || c == '\u{1680}'
        || ('\u{2000}' <= c && c <= '\u{200a}') || c == '\u{2028}' || c == '\u{2029}' || c
        == '\u{202f}' || c == '\u{205f}' || c == '\u{3000}'
}

/// Whether `c` separates words.
pub fn is_space_char(c: char) -> (r: bool)
    ensures
        r == is_space(c),
{
    ('\u{9}' <= c && c <= '\u{d}') || c == ' ' || c == '\u{85}' || c == '\u{a0}' || c == '\u{1680}'
        || ('\u{2000}' <= c && c <= '\u{200a}') || c == '\u{2028}' || c == '\u{2029}' || c
        == '\u{202f}' || c == '\u{205f}' || c == '\u{3000}'
}

/// The maximal runs of non-space characters of `s`, in order.
pub open spec fn words(s: Seq<char>) -> Seq<Seq<char>>
    decreases s.len(),
{
    if s.len() == 0 {
        Seq::empty()
    } else {
        let earlier = words(s.drop_last());
        let c = s.last();
        if is_space(c) {
            earlier
        } else if s.len() >= 2 && !is_space(s[s.len() - 2]) {
            earlier.drop_last().push(earlier.last().push(c))
        } else {
            earlier.push(seq![c])
        }
    }
}

/// The text of each word.
pub open spec fn word_texts(ws: Seq<String>) -> Seq<Seq<char>> {
    ws.map_values(|w: String| w@)
}

/// The words of `s`.
pub fn split_words(s: &str) -> (r: Vec<String>)
    ensures
        word_texts(r@) == words(s@),
{
    let n = s.unicode_len();
    let mut done: Vec<String> = Vec::new();
    let mut in_word = false;
    let mut start: usize = 0;
    let mut i: usize = 0;
    while i < n
        invariant
            n == s@.len(),
            i <= n,
            start <= i,
            in_word <==> (i > 0 && !is_space(s@[i - 1])),
            words(s@.take(i as int)) == word_texts(done@) + (if in_word {
                seq![s@.subrange(start as int, i as int)]
            } else {
                Seq::empty()
            }),
        decreases n - i,
    {
        let c = s.get_char(i);
        let ghost before = word_texts(done@);
        proof {
            assert(s@.take(i + 1).drop_last() =~= s@.take(i as int));
            assert(s@.take(i + 1).last() == c);
        }
        if is_space_char(c) {
            if in_word {
                let w = String::from_str(s.substring_char(start, i));
                done.push(w);
                assert(word_texts(done@) =~= before.push(s@.subrange(start as int, i as int)));
            }
            in_word = false;
        } else {
            if in_word {
                proof {
                    assert(s@.take(i + 1)[i - 1] == s@[i - 1]);
                    assert(s@.subrange(start as int, i + 1) =~= s@.subrange(start as int, i as int).push(c));
                    let w = before.push(s@.subrange(start as int, i as int));
                    assert(w.drop_last() =~= before);
                }
            } else {
                start = i;
                proof {
                    if i > 0 {
                        assert(s@.take(i + 1)[i - 1] == s@[i - 1]);
                    }
                    assert(s@.subrange(i as int, i + 1) =~= seq![c]);
                }
            }
            in_word = true;
        }
        i = i + 1;
    }
    if in_word {
        let w = String::from_str(s.substring_char(start, n));
        let ghost before = word_texts(done@);
        done.push(w);
        assert(word_texts(done@) =~= before.push(s@.subrange(start as int, n as int)));
    }
    assert(s@.take(n as int) =~= s@);
    done
}

/// `s` with every occurrence of `pat` taken out, scanning from the left.
pub open spec fn remove_all(s: Seq<char>, pat: Seq<char>) -> Seq<char>
    decreases s.len(),
{
    if s.len() == 0 {
        s
    } else if 0 < pat.len() <= s.len() && s.take(pat.len() as int) == pat {
        remove_all(s.skip(pat.len() as int), pat)
    } else {
        seq![s[0]] + remove_all(s.skip(1), pat)
    }
}

/// Whether `a` and `b` hold the same characters.
pub fn str_eq(a: &str, b: &str) -> (r: bool)
    ensures
        r == (a@ == b@),
{
    let n = a.unicode_len();
    if n != b.unicode_len() {
        return false;
    }
    let mut i: usize = 0;
    while i < n
        invariant
            n == a@.len(),
            n == b@.len(),
            i <= n,
            a@.take(i as int) == b@.take(i as int),
        decreases n - i,
    {
        if a.get_char(i) != b.get_char(i) {
            assert(a@[i as int] != b@[i as int]);
            return false;
        }
        assert(a@.take(i + 1) =~= a@.take(i as int).push(a@[i as int]));
        assert(b@.take(i + 1) =~= b@.take(i as int).push(b@[i as int]));
        i = i + 1;
    }
    assert(a@ =~= a@.take(n as int));
    assert(b@ =~= b@.take(n as int));
    true
}

/// `s` with every occurrence of `pat` taken out.
pub fn without(s: &str, pat: &str) -> (r: String)
    ensures
        r@ == remove_all(s@, pat@),
{
    let n = s.unicode_len();
    let m = pat.unicode_len();
    let mut out = String::new();
    let mut i: usize = 0;
    assert(s@.skip(0) =~= s@);
    assert(out@ + s@ =~= s@) by {
        assert(out@ =~= Seq::<char>::empty());
    }
    assert(out@ + remove_all(s@, pat@) =~= remove_all(s@, pat@));
    while i < n
        invariant
            n == s@.len(),
            m == pat@.len(),
            i <= n,
            remove_all(s@, pat@) == out@ + remove_all(s@.skip(i as int), pat@),
        decreases n - i,
    {
        let ghost rest = s@.skip(i as int);
        if 0 < m && m <= n - i && str_eq(s.substring_char(i, i + m), pat) {
            proof {
                assert(rest.take(m as int) =~= s@.subrange(i as int, i + m));
                assert(rest.skip(m as int) =~= s@.skip(i + m));
            }
            i = i + m;
        } else {
            let c = s.substring_char(i, i + 1);
            proof {
                if 0 < m && m <= n - i {
                    assert(rest.take(m as int) =~= s@.subrange(i as int, i + m));
                }
                assert(rest.skip(1) =~= s@.skip(i + 1));
                assert(c@ =~= seq![rest[0]]);
                assert(out@ + c@ + remove_all(s@.skip(i + 1), pat@) =~= out@ + (seq![rest[0]]
                    + remove_all(rest.skip(1), pat@)));
            }
            out.append(c);
            i = i + 1;
        }
    }
    assert(s@.skip(n as int) =~= Seq::<char>::empty());
    assert(out@ + Seq::<char>::empty() =~= out@);
    out
}

/// The platform identity in a mention such as `<@123>` or `<@!123>`: every
/// `<@!`, then every `<@`, then every `>` taken out.
pub open spec fn mention_id(s: Seq<char>) -> Seq<char> {
    remove_all(remove_all(remove_all(s, seq!['<', '@', '!']), seq!['<', '@']), seq!['>'])
}

/// The platform identity in the mention `s`.
pub fn strip_mention(s: &str) -> (r: String)
    ensures
        r@ == mention_id(s@),
{
    proof {
        reveal_strlit("<@!");
        reveal_strlit("<@");
        reveal_strlit(">");
    }
    assert("<@!"@ =~= seq!['<', '@', '!']);
    assert("<@"@ =~= seq!['<', '@']);
    assert(">"@ =~= seq!['>']);
    let a = without(s, "<@!");
    let b = without(a.as_str(), "<@");
    without(b.as_str(), ">")
}

/// The commands of the chat surface.
#[derive(Clone, Copy, Debug, PartialEq, Eq, Structural)]
pub enum CommandKind {
    Help,
    CheckIn,
    CheckOut,
    Register,
    CreateTeam,
    AddMember,
    ShowMembers,
    ShowMembersAttendance,
    ShowTeam,
}

/// A command with its arguments.
#[derive(Clone, Debug)]
pub enum Command {
    Help,
    CheckIn { team_name: String, status: String },
    CheckOut { team_name: String },
    Register { password: String },
    CreateTeam { team_name: String },
    AddMember { team_name: String, user_id: String, username: String },
    ShowMembers { team_name: String },
    ShowMembersAttendance { team_name: String },
    ShowTeam,
}

/// The command that the word `w` names.
pub open spec fn kind_named(w: Seq<char>) -> Option<CommandKind> {
    if w == "help"@ {
        Some(CommandKind::Help)
    } else if w == "check_in"@ {
        Some(CommandKind::CheckIn)
    } else if w == "check_out"@ {
        Some(CommandKind::CheckOut)
    } else if w == "register"@ {
        Some(CommandKind::Register)
    } else if w == "create_team"@ {
        Some(CommandKind::CreateTeam)
    } else if w == "add_member"@ {
        Some(CommandKind::AddMember)
    } else if w == "show_members"@ {
        Some(CommandKind::ShowMembers)
    } else if w == "show_members_attendance"@ {
        Some(CommandKind::ShowMembersAttendance)
    } else if w == "show_team"@ {
        Some(CommandKind::ShowTeam)
    } else {
        None
    }
}

/// How many words, the prefix and the command's name included, a command
/// needs.
pub open spec fn min_words(k: CommandKind) -> nat {
    match k {
        CommandKind::Help => 2,
        CommandKind::CheckIn => 4,
        CommandKind::CheckOut => 3,
        CommandKind::Register => 3,
        CommandKind::CreateTeam => 3,
        CommandKind::AddMember => 6,
        CommandKind::ShowMembers => 3,
        CommandKind::ShowMembersAttendance => 3,
        CommandKind::ShowTeam => 2,
    }
}

/// The kind of command `c`.
pub open spec fn kind_of(c: Command) -> CommandKind {
    match c {
        Command::Help => CommandKind::Help,
        Command::CheckIn { .. } => CommandKind::CheckIn,
        Command::CheckOut { .. } => CommandKind::CheckOut,
        Command::Register { .. } => CommandKind::Register,
        Command::CreateTeam { .. } => CommandKind::CreateTeam,
        Command::AddMember { .. } => CommandKind::AddMember,
        Command::ShowMembers { .. } => CommandKind::ShowMembers,
        Command::ShowMembersAttendance { .. } => CommandKind::ShowMembersAttendance,
        Command::ShowTeam => CommandKind::ShowTeam,
    }
}

/// The arguments of `c` are read from the words `ws`: the team name is the
/// third word, a status or a mentioned user the fourth, a member's name the
/// sixth (after `<team> <@user> as <name>`).
pub open spec fn args_from(c: Command, ws: Seq<Seq<char>>) -> bool {
    match c {
        Command::Help => true,
        Command::CheckIn { team_name, status } => team_name@ == ws[2] && status@ == ws[3],
        Command::CheckOut { team_name } => team_name@ == ws[2],
        Command::Register { password } => password@ == ws[2],
        Command::CreateTeam { team_name } => team_name@ == ws[2],
        Command::AddMember { team_name, user_id, username } => team_name@ == ws[2] && user_id@
            == mention_id(ws[3]) && username@ == ws[5],
        Command::ShowMembers { team_name } => team_name@ == ws[2],
        Command::ShowMembersAttendance { team_name } => team_name@ == ws[2],
        Command::ShowTeam => true,
    }
}

/// The command a message addressed with `!AB` names, if any.
pub open spec fn addressed_kind(ws: Seq<Seq<char>>) -> Option<CommandKind> {
    if ws.len() >= 2 && ws[0] == "!AB"@ {
        kind_named(ws[1])
    } else {
        None
    }
}

/// The command that the word `w` names.
pub fn kind_of_word(w: &str) -> (r: Option<CommandKind>)
    ensures
        r == kind_named(w@),
{
    if str_eq(w, "help") {
        Some(CommandKind::Help)
    } else if str_eq(w, "check_in") {
        Some(CommandKind::CheckIn)
    } else if str_eq(w, "check_out") {
        Some(CommandKind::CheckOut)
    } else if str_eq(w, "register") {
        Some(CommandKind::Register)
    } else if str_eq(w, "create_team") {
        Some(CommandKind::CreateTeam)
    } else if str_eq(w, "add_member") {
        Some(CommandKind::AddMember)
    } else if str_eq(w, "show_members") {
        Some(CommandKind::ShowMembers)
    } else if str_eq(w, "show_members_attendance") {
        Some(CommandKind::ShowMembersAttendance)
    } else if str_eq(w, "show_team") {
        Some(CommandKind::ShowTeam)
    } else {
        None
    }
}

/// Reads the command in a chat message. `None`: the message is not a
/// command of this bot; `Some(Err(k))`: it names command `k` with too few
/// words; `Some(Ok(c))`: command `c` with its arguments.
pub fn parse_command(content: &str) -> (r: Option<Result<Command, CommandKind>>)
    ensures
        ({
            let ws = words(content@);
            match addressed_kind(ws) {
                None => r is None,
                Some(k) => if ws.len() < min_words(k) {
                    r == Some(Err::<Command, CommandKind>(k))
                } else {
                    r matches Some(Ok(c)) && kind_of(c) == k && args_from(c, ws)
                },
            }
        }),
{
    let ws = split_words(content);
    let ghost texts = words(content@);
    assert forall|i: int| 0 <= i < ws@.len() implies #[trigger] ws@[i]@ == texts[i] by {
        assert(word_texts(ws@)[i] == ws@[i]@);
    }
    if ws.len() < 2 || !str_eq(ws[0].as_str(), "!AB") {
        return None;
    }
    let kind = match kind_of_word(ws[1].as_str()) {
        Some(k) => k,
        None => {
            return None;
        },
    };
    let n = ws.len();
    match kind {
        CommandKind::Help => Some(Ok(Command::Help)),
        CommandKind::ShowTeam => Some(Ok(Command::ShowTeam)),
        CommandKind::CheckIn => if n < 4 {
            Some(Err(kind))
        } else {
            Some(Ok(Command::CheckIn { team_name: ws[2].clone(), status: ws[3].clone() }))
        },
        CommandKind::CheckOut => if n < 3 {
            Some(Err(kind))
        } else {
            Some(Ok(Command::CheckOut { team_name: ws[2].clone() }))
        },
        CommandKind::Register => if n < 3 {
            Some(Err(kind))
        } else {
            Some(Ok(Command::Register { password: ws[2].clone() }))
        },
        CommandKind::CreateTeam => if n < 3 {
            Some(Err(kind))
        } else {
            Some(Ok(Command::CreateTeam { team_name: ws[2].clone() }))
        },
        CommandKind::AddMember => if n < 6 {
            Some(Err(kind))
        } else {
            Some(
                Ok(
                    Command::AddMember {
                        team_name: ws[2].clone(),
                        user_id: strip_mention(ws[3].as_str()),
                        username: ws[5].clone(),
                    },
                ),
            )
        },
        CommandKind::ShowMembers => if n < 3 {
            Some(Err(kind))
        } else {
            Some(Ok(Command::ShowMembers { team_name: ws[2].clone() }))
        },
        CommandKind::ShowMembersAttendance => if n < 3 {
            Some(Err(kind))
        } else {
            Some(Ok(Command::ShowMembersAttendance { team_name: ws[2].clone() }))
        },
    }
}

} // verus!
