use attendance_bot::commands::{
    kind_of_word, parse_command, split_words, str_eq, strip_mention, Command, CommandKind,
};
use attendance_bot::time::{date_of, Date, Timestamp};
use attendance_bot::model::{show_date, show_time};

#[test]
fn words_split_on_any_white_space() {
    assert_eq!(split_words("  !AB  check_in\tEng\nLate "), vec!["!AB", "check_in", "Eng", "Late"]);
    assert!(split_words("").is_empty());
    assert!(split_words(" \u{3000} ").is_empty());
    assert_eq!(split_words("a\u{a0}b"), vec!["a", "b"]);
}

#[test]
fn check_in_command_reads_team_and_status() {
    match parse_command("!AB check_in Eng Present") {
        Some(Ok(Command::CheckIn { team_name, status })) => {
            assert_eq!(team_name, "Eng");
            assert_eq!(status, "Present");
        }
        other => panic!("unexpected {:?}", other),
    }
}

#[test]
fn short_commands_give_their_kind() {
    assert!(matches!(parse_command("!AB check_in Eng"), Some(Err(CommandKind::CheckIn))));
    assert!(matches!(parse_command("!AB check_out"), Some(Err(CommandKind::CheckOut))));
    assert!(matches!(parse_command("!AB register"), Some(Err(CommandKind::Register))));
    assert!(matches!(
        parse_command("!AB add_member Eng <@1> as"),
        Some(Err(CommandKind::AddMember))
    ));
    assert!(matches!(
        parse_command("!AB show_members_attendance"),
        Some(Err(CommandKind::ShowMembersAttendance))
    ));
}

#[test]
fn other_messages_are_ignored() {
    assert!(parse_command("hello").is_none());
    assert!(parse_command("!AB").is_none());
    assert!(parse_command("!AB dance").is_none());
    assert!(parse_command("!ab help").is_none());
    assert!(parse_command("!ABhelp").is_none());
}

#[test]
fn add_member_strips_the_mention() {
    match parse_command("!AB add_member Eng <@!12345> as Jane") {
        Some(Ok(Command::AddMember { team_name, user_id, username })) => {
            assert_eq!(team_name, "Eng");
            assert_eq!(user_id, "12345");
            assert_eq!(username, "Jane");
        }
        other => panic!("unexpected {:?}", other),
    }
    assert_eq!(strip_mention("<@678>"), "678");
    assert_eq!(strip_mention("plain"), "plain");
    assert_eq!(strip_mention("<<@!@!>>"), "!");
}

#[test]
fn show_members_attendance_is_its_own_command() {
    assert!(matches!(
        parse_command("!AB show_members_attendance Eng"),
        Some(Ok(Command::ShowMembersAttendance { .. }))
    ));
    assert!(matches!(parse_command("!AB show_members Eng"), Some(Ok(Command::ShowMembers { .. }))));
    assert!(matches!(parse_command("!AB show_team"), Some(Ok(Command::ShowTeam))));
    assert!(matches!(parse_command("!AB help me"), Some(Ok(Command::Help))));
    assert!(matches!(
        parse_command("!AB create_team Eng"),
        Some(Ok(Command::CreateTeam { .. }))
    ));
    assert!(matches!(parse_command("!AB register pw"), Some(Ok(Command::Register { .. }))));
    assert!(matches!(parse_command("!AB check_out Eng"), Some(Ok(Command::CheckOut { .. }))));
}

#[test]
fn command_names() {
    assert_eq!(kind_of_word("check_out"), Some(CommandKind::CheckOut));
    assert_eq!(kind_of_word("show_team"), Some(CommandKind::ShowTeam));
    assert_eq!(kind_of_word("show"), None);
    assert!(str_eq("ab", "ab"));
    assert!(!str_eq("ab", "ac"));
    assert!(!str_eq("ab", "abc"));
}

#[test]
fn days_and_rendering() {
    assert_eq!(date_of(Timestamp { secs: 0 }), Date { days: 0 });
    assert_eq!(date_of(Timestamp { secs: 86399 }), Date { days: 0 });
    assert_eq!(date_of(Timestamp { secs: -1 }), Date { days: -1 });
    assert_eq!(date_of(Timestamp { secs: -86400 }), Date { days: -1 });
    assert_eq!(date_of(Timestamp { secs: -86401 }), Date { days: -2 });
    assert_eq!(show_time(Some(Timestamp { secs: 0 })), "1970-01-01 00:00:00");
    assert_eq!(show_time(None), "N/A");
    assert_eq!(show_time(Some(Timestamp { secs: i64::MAX })), "N/A");
    assert_eq!(show_date(Date { days: -1 }), "1969-12-31");
    assert_eq!(show_date(Date { days: i64::MAX }), "N/A");
}
