use jjdag::listing::{parse_listing, ListKind};
use jjdag::navigation::{decimal, format_repository_for_display};
use jjdag::strings::{
    chars_contain, chars_le, chars_start_with, count_chars, filter_items, first_word_chars,
    from_chars, insert_char_at, lines_of, remove_char_at, str_eq, strip_ansi, to_chars,
    trim_chars,
};

fn s(chars: Vec<char>) -> String {
    chars.into_iter().collect()
}

#[test]
fn chars_round_trip() {
    assert_eq!(to_chars("a\u{2193}b"), vec!['a', '\u{2193}', 'b']);
    assert_eq!(from_chars(&vec!['x', 'y']), "xy");
    assert_eq!(from_chars(&vec![]), "");
}

#[test]
fn strings_compare_by_characters() {
    assert!(str_eq("abc", "abc"));
    assert!(!str_eq("abc", "abd"));
    assert!(!str_eq("abc", "ab"));
    assert!(chars_le(&to_chars("abc"), &to_chars("abd")));
    assert!(chars_le(&to_chars("ab"), &to_chars("abc")));
    assert!(chars_le(&to_chars(""), &to_chars("")));
    assert!(!chars_le(&to_chars("b"), &to_chars("abc")));
    assert!(!chars_le(&to_chars("abc"), &to_chars("ab")));
}

#[test]
fn trim_drops_white_space_at_both_ends() {
    assert_eq!(s(trim_chars(&to_chars("  a b \t\n"))), "a b");
    assert_eq!(s(trim_chars(&to_chars("\u{a0}x\u{2003}"))), "x");
    assert_eq!(s(trim_chars(&to_chars("   "))), "");
    assert_eq!(s(trim_chars(&to_chars(""))), "");
}

#[test]
fn first_word_stops_at_white_space() {
    assert_eq!(s(first_word_chars(&to_chars("  origin git@host:x"))), "origin");
    assert_eq!(s(first_word_chars(&to_chars("word"))), "word");
    assert_eq!(s(first_word_chars(&to_chars("   "))), "");
}

#[test]
fn ansi_sequences_are_stripped() {
    assert_eq!(strip_ansi("\u{1b}[1m\u{1b}[38;5;5mmain\u{1b}[0m: abc"), "main: abc");
    assert_eq!(strip_ansi("plain"), "plain");
    assert_eq!(strip_ansi("a\u{1b}[31"), "a");
    assert_eq!(strip_ansi("a\u{1b}b"), "ab");
}

#[test]
fn lines_split_at_line_feeds() {
    let lines = |text: &str| -> Vec<String> { lines_of(&to_chars(text)).into_iter().map(s).collect() };
    assert_eq!(lines("a\nb\r\nc"), vec!["a", "b", "c"]);
    assert_eq!(lines("a\n"), vec!["a"]);
    assert_eq!(lines("\n\nx"), vec!["", "", "x"]);
    assert_eq!(lines(""), Vec::<String>::new());
    assert_eq!(lines("a\r"), vec!["a\r"]);
}

#[test]
fn substring_search() {
    assert!(chars_contain(&to_chars("feature/login"), &to_chars("log")));
    assert!(chars_contain(&to_chars("abc"), &to_chars("")));
    assert!(chars_contain(&to_chars("abc"), &to_chars("abc")));
    assert!(!chars_contain(&to_chars("abc"), &to_chars("abcd")));
    assert!(!chars_contain(&to_chars("abc"), &to_chars("ca")));
    assert!(chars_start_with(&to_chars("Refreshed..."), &to_chars("Refreshed")));
    assert!(!chars_start_with(&to_chars("Refresh"), &to_chars("Refreshed")));
    assert_eq!(count_chars(&to_chars("a.b..c"), '.'), 3);
}

#[test]
fn filter_ignores_case() {
    let items = vec!["Main".to_string(), "feature".to_string(), "DOMAIN".to_string()];
    assert_eq!(filter_items(&items, "main"), vec!["Main", "DOMAIN"]);
    assert_eq!(filter_items(&items, "MAIN"), vec!["Main", "DOMAIN"]);
    assert_eq!(filter_items(&items, ""), items);
    assert_eq!(filter_items(&items, "zzz"), Vec::<String>::new());
}

#[test]
fn characters_are_inserted_and_removed_by_place() {
    assert_eq!(insert_char_at("ac", 1, 'b'), "abc");
    assert_eq!(insert_char_at("", 0, 'x'), "x");
    assert_eq!(insert_char_at("\u{e9}t", 1, '\u{2193}'), "\u{e9}\u{2193}t");
    assert_eq!(remove_char_at("abc", 1), "ac");
    assert_eq!(remove_char_at("\u{e9}t\u{e9}", 2), "\u{e9}t");
}

#[test]
fn numbers_are_written_in_decimal() {
    assert_eq!(decimal(0), "0");
    assert_eq!(decimal(7), "7");
    assert_eq!(decimal(1203), "1203");
    assert_eq!(decimal(u32::MAX), "4294967295");
}

#[test]
fn repository_is_shown_relative_to_home() {
    assert_eq!(format_repository_for_display("/home/u/code/repo", Some("/home/u")), "~/code/repo");
    assert_eq!(format_repository_for_display("/home/u", Some("/home/u")), "~");
    assert_eq!(format_repository_for_display("/home/user2/x", Some("/home/u")), "/home/user2/x");
    assert_eq!(format_repository_for_display("/srv/repo", Some("/home/u")), "/srv/repo");
    assert_eq!(format_repository_for_display("/srv/repo", None), "/srv/repo");
}

#[test]
fn bookmark_listing_gives_the_names_before_the_colon() {
    let output = "\u{1b}[38;5;5mmain\u{1b}[39m: qpvuntsm 1234 desc\n  @origin: qpvuntsm 1234\nfeature (deleted): x\n\n";
    assert_eq!(parse_listing(output, ListKind::Bookmarks), vec!["main", "@origin", "feature"]);
}

#[test]
fn tracked_bookmark_listing_keeps_names_with_an_at_sign() {
    let output = "main: a\nmain@origin: a\nother@up: b\n";
    assert_eq!(parse_listing(output, ListKind::TrackedBookmarks), vec!["main@origin", "other@up"]);
}

#[test]
fn remote_listing_gives_the_first_word() {
    let output = "origin git@github.com:me/repo\nupstream https://example.com/x\n";
    assert_eq!(parse_listing(output, ListKind::Remotes), vec!["origin", "upstream"]);
}

#[test]
fn path_listing_and_plain_listing() {
    assert_eq!(parse_listing(" a.txt \n\u{1b}[0m\nb c.txt\n", ListKind::Paths), vec!["a.txt", "b c.txt"]);
    assert_eq!(parse_listing(" main \n\nnext\n", ListKind::Plain), vec!["main", "next"]);
}

#[test]
fn workspace_listing_gives_the_names_before_the_colon() {
    let output = "default: abc 123 (no description)\nsecond : def\n";
    assert_eq!(parse_listing(output, ListKind::Workspaces), vec!["default", "second"]);
}

#[test]
fn listing_of_nothing_is_empty() {
    assert!(parse_listing("", ListKind::Bookmarks).is_empty());
    assert!(parse_listing("\n  \n", ListKind::Remotes).is_empty());
    assert_eq!(parse_listing("\u{1b}[0m\n", ListKind::Bookmarks), vec![""]);
    assert!(parse_listing("\u{1b}[0m\n", ListKind::NamedBookmarks).is_empty());
}
