use dj_bot::command::{accepts, command_in, is_whitespace, parse_command, recognize, split_words, starts_with, Command, Config};

fn config(prefix: &str, channel: Option<u64>) -> Config {
    Config {
        discord_token: "SECRET-REDACTED".to_string(),
        command_prefix: prefix.to_string(),
        command_channel: channel,
        cache_dir: "cache".to_string(),
    }
}

#[test]
fn play_command_with_arguments() {
    let r = parse_command("!play lofi beats", "!");
    assert_eq!(r, Some(("play".to_string(), "lofi beats".to_string())));
}

#[test]
fn plain_message_is_no_command() {
    assert_eq!(parse_command("hello", "!"), None);
}

#[test]
fn command_names_are_case_sensitive() {
    let (name, args) = parse_command("!PLAY x", "!").unwrap();
    assert_eq!(name, "PLAY");
    assert_eq!(recognize(&name, args), None);
    assert_eq!(command_in(&config("!", None), 1, 2, 3, "!PLAY x"), None);
}

#[test]
fn arguments_are_rejoined_with_single_spaces() {
    let r = parse_command("  !play   a \t b\n ", "!");
    assert_eq!(r, Some(("play".to_string(), "a b".to_string())));
}

#[test]
fn multibyte_prefix_is_stripped_by_characters() {
    let r = parse_command("→stop now", "→");
    assert_eq!(r, Some(("stop".to_string(), "now".to_string())));
    assert_eq!(command_in(&config("→", None), 1, 2, 3, "→quit"), Some(Command::Quit));
}

#[test]
fn empty_message_reads_as_empty_word() {
    assert_eq!(parse_command("", "!"), None);
    assert_eq!(parse_command("   ", ""), Some((String::new(), String::new())));
}

#[test]
fn unknown_command_is_ignored() {
    assert_eq!(command_in(&config("!", None), 1, 2, 3, "!dance"), None);
}

#[test]
fn play_without_query_has_empty_argument() {
    assert_eq!(command_in(&config("!", None), 1, 2, 3, "!play"), Some(Command::Play(String::new())));
}

#[test]
fn restricted_channel_filter() {
    let c = config("!", Some(42));
    assert!(!accepts(&c, 1, 2, 7));
    assert!(accepts(&c, 1, 2, 42));
    assert_eq!(command_in(&c, 1, 2, 7, "!stop"), None);
    assert_eq!(command_in(&c, 1, 2, 42, "!stop"), Some(Command::Stop));
}

#[test]
fn own_messages_are_never_commands() {
    let c = config("!", None);
    assert!(!accepts(&c, 5, 5, 9));
    assert_eq!(command_in(&c, 5, 5, 9, "!play x"), None);
}

#[test]
fn words_split_on_unicode_whitespace() {
    let w = split_words("a\u{3000}bc\u{a0}d  e");
    assert_eq!(w, vec!["a".to_string(), "bc".to_string(), "d".to_string(), "e".to_string()]);
    assert!(is_whitespace('\u{2028}'));
    assert!(!is_whitespace('x'));
    assert!(starts_with("!play", "!"));
    assert!(!starts_with("!", "!p"));
}
