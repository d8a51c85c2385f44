use whereitbelongs::digest::compute_sha256;
use whereitbelongs::digest::to_hex_lower;
use whereitbelongs::heuristics::indicator;
use whereitbelongs::heuristics::indicator_hit;
use whereitbelongs::heuristics::run_heuristics;
use whereitbelongs::heuristics::HEURISTIC_SEVERITY;
use whereitbelongs::heuristics::INDICATOR_COUNT;
use whereitbelongs::rules::SignatureDb;
use whereitbelongs::rules::SignatureEntry;
use whereitbelongs::text::contains_chars;
use whereitbelongs::text::to_chars;

fn rule(name: &str, family: &str, pattern: &str) -> SignatureEntry {
    SignatureEntry { name: name.to_string(), family: family.to_string(), pattern: pattern.to_string() }
}

fn chars(s: &str) -> Vec<char> {
    s.chars().collect()
}

#[test]
fn sha256_of_known_inputs() {
    assert_eq!(
        compute_sha256(b""),
        "e3b0c44298fc1c149afbf4c8996fb92427ae41e4649b934ca495991b7852b855"
    );
    assert_eq!(
        compute_sha256(b"abc"),
        "ba7816bf8f01cfea414140de5dae2223b00361a396177a9cb410ff61f20015ad"
    );
}

#[test]
fn hex_is_lowercase_two_digits_per_byte() {
    assert_eq!(to_hex_lower(&[]), "");
    assert_eq!(to_hex_lower(&[0x00, 0x0a, 0xff, 0x10, 0x9f]), "000aff109f");
    assert_eq!(to_hex_lower(&[0xab, 0xcd, 0xef]), "abcdef");
}

#[test]
fn to_chars_gives_the_characters() {
    assert_eq!(to_chars("héllo"), vec!['h', 'é', 'l', 'l', 'o']);
    assert_eq!(to_chars(""), Vec::<char>::new());
}

#[test]
fn contains_chars_is_substring_search() {
    assert!(contains_chars(&chars("hello world"), &chars("lo w")));
    assert!(contains_chars(&chars("hello"), &chars("hello")));
    assert!(contains_chars(&chars("hello"), &chars("")));
    assert!(contains_chars(&chars(""), &chars("")));
    assert!(contains_chars(&chars("aab"), &chars("ab")));
    assert!(contains_chars(&chars("xyz"), &chars("z")));
    assert!(!contains_chars(&chars("hello"), &chars("hellp")));
    assert!(!contains_chars(&chars("hi"), &chars("hii")));
    assert!(!contains_chars(&chars(""), &chars("a")));
}

#[test]
fn indicator_list_is_fixed() {
    assert_eq!(INDICATOR_COUNT, 13);
    assert_eq!(indicator(0), "powershell -enc");
    assert_eq!(indicator(4), "disablerealtimemonitoring");
    assert_eq!(
        indicator(5),
        "reg add \\\\hklm\\software\\microsoft\\windows\\currentversion\\run"
    );
    assert_eq!(indicator(12), "rdp");
}

#[test]
fn every_indicator_hits() {
    for k in 0..INDICATOR_COUNT {
        let text = format!("before {} after", indicator(k));
        assert!(indicator_hit(&text));
    }
    assert!(!indicator_hit("an ordinary sentence"));
    assert!(!indicator_hit(""));
    // The text is expected in lower case already.
    assert!(!indicator_hit("KEYLOGGER"));
}

#[test]
fn heuristics_lower_case_the_content() {
    let found = run_heuristics("a.ps1", "Set-MpPreference -DisableRealtimeMonitoring $true");
    assert_eq!(found.len(), 1);
    assert_eq!(found[0].severity, HEURISTIC_SEVERITY);
    assert_eq!(found[0].severity, 6);
    assert_eq!(found[0].path, "a.ps1");
    assert_eq!(found[0].sha256, None);
}

#[test]
fn many_indicators_one_detection() {
    let found = run_heuristics("x", "keylogger clipboard rdp powershell -enc wscript.shell");
    assert_eq!(found.len(), 1);
    assert!(run_heuristics("x", "harmless").is_empty());
}

#[test]
fn rule_that_does_not_compile_is_dropped() {
    let db = SignatureDb::load(vec![
        rule("broken", "x", "foo(bar"),
        rule("good", "y", "ba[rz]"),
        rule("alsobroken", "x", "[a-"),
    ]);
    assert_eq!(db.len(), 1);
    assert_eq!(db.name(0), "good");
    assert_eq!(db.family(0), "y");
    assert_eq!(db.first_match("xx BAZ"), Some(0));
    assert_eq!(db.first_match("foo(bar"), Some(0));
    assert_eq!(db.first_match("nothing"), None);
}

#[test]
fn first_rule_in_order_wins() {
    let db = SignatureDb::load(vec![
        rule("first", "a", "evil"),
        rule("second", "b", "evil.*thing"),
        rule("third", "c", "thing"),
    ]);
    assert_eq!(db.len(), 3);
    assert_eq!(db.first_match("an Evil thing"), Some(0));
    assert_eq!(db.first_match("a thing"), Some(2));
    assert_eq!(db.first_match("clean"), None);
    assert_eq!(db.name(2), "third");
}

#[test]
fn empty_rule_set_matches_nothing() {
    let db = SignatureDb::load(Vec::new());
    assert_eq!(db.len(), 0);
    assert_eq!(db.first_match("njrat"), None);
}
