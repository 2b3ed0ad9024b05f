use libnet::rules::{HostItem, NativeHost, NativeHostState, RuleDatabase};
use std::collections::hash_map::DefaultHasher;
use std::collections::HashSet;
use std::hash::{Hash, Hasher};

fn hash_of(name: &str) -> u64 {
    let mut hasher = DefaultHasher::new();
    name.hash(&mut hasher);
    hasher.finish()
}

fn host(data: &str, state: NativeHostState) -> NativeHost {
    NativeHost { title: String::from("list"), data: String::from(data), state }
}

fn literal(data: &str, state: NativeHostState) -> HostItem {
    HostItem { host: host(data, state), lines: None }
}

fn file(state: NativeHostState, lines: &[&str]) -> HostItem {
    HostItem {
        host: host("/etc/hosts.block", state),
        lines: Some(lines.iter().map(|l| String::from(*l)).collect()),
    }
}

fn parse(line: &str) -> Option<String> {
    RuleDatabase::parse_line(line)
}

#[test]
fn parse_line_plain_host() {
    assert_eq!(parse("ads.example"), Some(String::from("ads.example")));
    assert_eq!(parse("a"), Some(String::from("a")));
}

#[test]
fn parse_line_lowercases() {
    assert_eq!(parse("ADS.Example"), Some(String::from("ads.example")));
    assert_eq!(parse("0.0.0.0 TRACKER.Example.ORG"), Some(String::from("tracker.example.org")));
    assert_eq!(parse("ÄDS.example"), Some(String::from("äds.example")));
}

#[test]
fn parse_line_skips_empty_and_blank_lines() {
    assert_eq!(parse(""), None);
    assert_eq!(parse(" "), None);
    assert_eq!(parse("\t \r"), None);
    assert_eq!(parse("\u{3000}"), None);
}

#[test]
fn parse_line_strips_trailing_whitespace() {
    assert_eq!(parse("ads.example   "), Some(String::from("ads.example")));
    assert_eq!(parse("ads.example\r"), Some(String::from("ads.example")));
    assert_eq!(parse("127.0.0.1 ads.example \t"), Some(String::from("ads.example")));
}

#[test]
fn parse_line_drops_comments() {
    assert_eq!(parse("# a comment"), None);
    assert_eq!(parse("#"), None);
    assert_eq!(parse("ads.example#comment"), Some(String::from("ads.example")));
    assert_eq!(parse("ads.example#one#two"), Some(String::from("ads.example")));
    assert_eq!(parse("0.0.0.0 ads.example#comment"), Some(String::from("ads.example")));
    assert_eq!(parse("0.0.0.0 # ads.example"), None);
}

#[test]
fn parse_line_keeps_whitespace_before_a_comment_in_the_token() {
    assert_eq!(parse("ads.example # comment"), None);
    assert_eq!(parse("0.0.0.0 ads.example # comment"), None);
}

#[test]
fn parse_line_skips_address_prefixes() {
    assert_eq!(parse("127.0.0.1 ads.example"), Some(String::from("ads.example")));
    assert_eq!(parse("::1 ads.example"), Some(String::from("ads.example")));
    assert_eq!(parse("0.0.0.0 ads.example"), Some(String::from("ads.example")));
    assert_eq!(parse("0.0.0.0\t\tads.example"), Some(String::from("ads.example")));
    assert_eq!(parse("127.0.0.1   \t ads.example"), Some(String::from("ads.example")));
    assert_eq!(parse("127.0.0.1ads.example"), Some(String::from("ads.example")));
}

#[test]
fn parse_line_address_alone_gives_no_host() {
    assert_eq!(parse("127.0.0.1"), None);
    assert_eq!(parse("::1"), None);
    assert_eq!(parse("0.0.0.0"), None);
    assert_eq!(parse("0.0.0.0    "), None);
}

#[test]
fn parse_line_takes_only_the_first_prefix() {
    assert_eq!(parse("127.0.0.1 0.0.0.0"), Some(String::from("0.0.0.0")));
    assert_eq!(parse("0.0.0.0 ::1"), Some(String::from("::1")));
}

#[test]
fn parse_line_prefix_must_stand_at_the_start() {
    assert_eq!(parse("x127.0.0.1"), Some(String::from("x127.0.0.1")));
    assert_eq!(parse(" 127.0.0.1 ads.example"), None);
    assert_eq!(parse("192.168.0.1 ads.example"), None);
}

#[test]
fn parse_line_rejects_inner_whitespace() {
    assert_eq!(parse("ads example"), None);
    assert_eq!(parse(" ads.example"), None);
    assert_eq!(parse("0.0.0.0 ads.example other.example"), None);
    assert_eq!(parse("ads\u{a0}example"), None);
}

#[test]
fn accept_host_cases() {
    assert_eq!(RuleDatabase::accept_host(String::new()), None);
    assert_eq!(RuleDatabase::accept_host(String::from("a b")), None);
    assert_eq!(RuleDatabase::accept_host(String::from("ab ")), None);
    assert_eq!(RuleDatabase::accept_host(String::from("ab")), Some(String::from("ab")));
}

#[test]
fn accept_host_knows_exactly_the_white_space_characters() {
    let white: [u32; 25] = [
        0x09, 0x0A, 0x0B, 0x0C, 0x0D, 0x20, 0x85, 0xA0, 0x1680, 0x2000, 0x2001, 0x2002, 0x2003,
        0x2004, 0x2005, 0x2006, 0x2007, 0x2008, 0x2009, 0x200A, 0x2028, 0x2029, 0x202F, 0x205F,
        0x3000,
    ];
    let mut code: u32 = 0;
    while code <= 0x10FFFF {
        if let Some(c) = char::from_u32(code) {
            let mut host = String::from("a");
            host.push(c);
            host.push('b');
            let accepted = RuleDatabase::accept_host(host).is_some();
            assert_eq!(accepted, !white.contains(&code), "code point {:#x}", code);
            assert_eq!(accepted, !c.is_whitespace(), "code point {:#x}", code);
        }
        code += 1;
    }
}

#[test]
fn new_database_blocks_nothing() {
    let database = RuleDatabase::new();
    assert!(!database.is_blocked("ads.example"));
    assert!(!database.is_blocked(""));
}

#[test]
fn empty_build_blocks_nothing() {
    let mut database = RuleDatabase::new();
    database.initialize(vec![literal("ads.example", NativeHostState::DENY)], vec![]);
    assert!(database.is_blocked("ads.example"));
    database.initialize(vec![], vec![]);
    assert!(!database.is_blocked("ads.example"));
}

#[test]
fn add_host_inserts_the_hash_of_the_lowercased_name() {
    let database = RuleDatabase::new();
    let mut set: HashSet<u64> = HashSet::new();
    database.add_host(&mut set, &NativeHostState::DENY, "Ads.Example");
    let mut expected: HashSet<u64> = HashSet::new();
    expected.insert(hash_of("ads.example"));
    assert_eq!(set, expected);
    assert_ne!(hash_of("ads.example"), hash_of("Ads.Example"));
}

#[test]
fn add_host_by_state() {
    let database = RuleDatabase::new();
    let mut set: HashSet<u64> = HashSet::new();
    database.add_host(&mut set, &NativeHostState::IGNORE, "a.example");
    assert!(set.is_empty());
    database.add_host(&mut set, &NativeHostState::DENY, "a.example");
    database.add_host(&mut set, &NativeHostState::DENY, "b.example");
    database.add_host(&mut set, &NativeHostState::DENY, "a.example");
    assert_eq!(set.len(), 2);
    database.add_host(&mut set, &NativeHostState::ALLOW, "A.EXAMPLE");
    assert_eq!(set.len(), 1);
    assert!(set.contains(&hash_of("b.example")));
    database.add_host(&mut set, &NativeHostState::ALLOW, "c.example");
    assert_eq!(set.len(), 1);
    database.add_host(&mut set, &NativeHostState::IGNORE, "b.example");
    assert_eq!(set.len(), 1);
}

#[test]
fn is_blocked_ignores_case() {
    let mut database = RuleDatabase::new();
    database.initialize(vec![literal("Ads.Example", NativeHostState::DENY)], vec![]);
    assert!(database.is_blocked("ads.example"));
    assert!(database.is_blocked("ADS.EXAMPLE"));
    assert!(!database.is_blocked("ads.example."));
    assert!(!database.is_blocked("other.example"));
}

#[test]
fn load_file_applies_each_line_that_gives_a_host() {
    let database = RuleDatabase::new();
    let mut set: HashSet<u64> = HashSet::new();
    let lines: Vec<String> = vec![
        String::from("# hosts"),
        String::from("0.0.0.0 one.example"),
        String::from(""),
        String::from("two words"),
        String::from("127.0.0.1 TWO.example # trailing"),
        String::from("three.example"),
    ];
    database.load_file(&mut set, &host("file", NativeHostState::DENY), &lines);
    let mut expected: HashSet<u64> = HashSet::new();
    expected.insert(hash_of("one.example"));
    expected.insert(hash_of("three.example"));
    assert_eq!(set, expected);
    database.load_file(&mut set, &host("file", NativeHostState::ALLOW), &lines);
    assert!(set.is_empty());
}

#[test]
fn load_item_file_or_literal() {
    let database = RuleDatabase::new();
    let mut set: HashSet<u64> = HashSet::new();
    database.load_item(&mut set, &file(NativeHostState::DENY, &["a.example", "b.example"]));
    assert_eq!(set.len(), 2);
    database.load_item(&mut set, &literal("c.example", NativeHostState::DENY));
    assert_eq!(set.len(), 3);
    assert!(set.contains(&hash_of("c.example")));
    database.load_item(&mut set, &file(NativeHostState::IGNORE, &["d.example"]));
    database.load_item(&mut set, &literal("e.example", NativeHostState::IGNORE));
    assert_eq!(set.len(), 3);
    database.load_item(&mut set, &literal("a.example", NativeHostState::ALLOW));
    assert_eq!(set.len(), 2);
    assert!(!set.contains(&hash_of("a.example")));
}

#[test]
fn literal_item_is_not_read_as_a_line() {
    let mut database = RuleDatabase::new();
    database.initialize(vec![literal("0.0.0.0 ads.example", NativeHostState::DENY)], vec![]);
    assert!(database.is_blocked("0.0.0.0 ads.example"));
    assert!(!database.is_blocked("ads.example"));
}

#[test]
fn allow_item_overrides_deny_item_whatever_the_order() {
    let mut database = RuleDatabase::new();
    database.initialize(
        vec![
            literal("ads.example", NativeHostState::ALLOW),
            literal("ads.example", NativeHostState::DENY),
            literal("other.example", NativeHostState::DENY),
        ],
        vec![],
    );
    assert!(!database.is_blocked("ads.example"));
    assert!(database.is_blocked("other.example"));

    database.initialize(
        vec![
            literal("ads.example", NativeHostState::DENY),
            literal("ads.example", NativeHostState::ALLOW),
            literal("ads.example", NativeHostState::DENY),
        ],
        vec![],
    );
    assert!(!database.is_blocked("ads.example"));
}

#[test]
fn allow_file_overrides_deny_file() {
    let mut database = RuleDatabase::new();
    database.initialize(
        vec![
            file(NativeHostState::ALLOW, &["0.0.0.0 good.example"]),
            file(NativeHostState::DENY, &["0.0.0.0 good.example", "0.0.0.0 bad.example"]),
        ],
        vec![],
    );
    assert!(!database.is_blocked("good.example"));
    assert!(database.is_blocked("bad.example"));
}

#[test]
fn ignored_entries_change_nothing() {
    let mut database = RuleDatabase::new();
    database.initialize(
        vec![
            literal("a.example", NativeHostState::DENY),
            literal("a.example", NativeHostState::IGNORE),
            file(NativeHostState::IGNORE, &["b.example"]),
        ],
        vec![host("c.example", NativeHostState::IGNORE)],
    );
    assert!(database.is_blocked("a.example"));
    assert!(!database.is_blocked("b.example"));
    assert!(!database.is_blocked("c.example"));
}

#[test]
fn exceptions_follow_the_items() {
    let mut database = RuleDatabase::new();
    database.initialize(
        vec![
            literal("a.example", NativeHostState::DENY),
            literal("b.example", NativeHostState::ALLOW),
        ],
        vec![
            host("a.example", NativeHostState::ALLOW),
            host("b.example", NativeHostState::DENY),
            host("c.example", NativeHostState::DENY),
        ],
    );
    assert!(!database.is_blocked("a.example"));
    assert!(database.is_blocked("b.example"));
    assert!(database.is_blocked("c.example"));
}

#[test]
fn allow_exception_overrides_deny_exception_whatever_the_order() {
    let mut database = RuleDatabase::new();
    database.initialize(
        vec![],
        vec![
            host("a.example", NativeHostState::ALLOW),
            host("a.example", NativeHostState::DENY),
        ],
    );
    assert!(!database.is_blocked("a.example"));
}

#[test]
fn exceptions_are_literal_names() {
    let mut database = RuleDatabase::new();
    database.initialize(vec![], vec![host("Some.Example", NativeHostState::DENY)]);
    assert!(database.is_blocked("some.example"));
}

#[test]
fn rebuild_replaces_the_set() {
    let mut database = RuleDatabase::new();
    database.initialize(vec![literal("a.example", NativeHostState::DENY)], vec![]);
    database.initialize(vec![literal("b.example", NativeHostState::DENY)], vec![]);
    assert!(!database.is_blocked("a.example"));
    assert!(database.is_blocked("b.example"));
}

#[test]
fn host_states_are_ordered() {
    assert!(NativeHostState::IGNORE < NativeHostState::DENY);
    assert!(NativeHostState::DENY < NativeHostState::ALLOW);
}
