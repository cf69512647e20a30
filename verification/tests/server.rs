use hookdeploy::server::{listen_port, port_from_text, DEFAULT_PORT};
use hookdeploy::text::{join2, join3, trim_prefix};

#[test]
fn default_port_is_9786() {
    assert_eq!(DEFAULT_PORT, 9786);
    assert_eq!(listen_port(None), 9786);
}

#[test]
fn configured_port_is_taken() {
    assert_eq!(listen_port(Some("8080")), 8080);
    assert_eq!(listen_port(Some("0")), 0);
    assert_eq!(listen_port(Some("65535")), 65535);
    assert_eq!(listen_port(Some("+443")), 443);
    assert_eq!(listen_port(Some("0080")), 80);
    assert_eq!(listen_port(Some("00000000000000000000001")), 1);
}

#[test]
fn setting_that_names_no_port_gives_the_default() {
    for text in [
        "", "+", "-", "-1", "65536", "70000", "99999999999999999999", " 80", "80 ", "8_0", "80a",
        "a80", "0x50", "++80", "+-80", "8.0", "\u{ff18}\u{ff10}", "80\u{e9}", "\u{e9}80", "+\u{e9}",
    ] {
        assert_eq!(listen_port(Some(text)), 9786, "{:?}", text);
    }
}

#[test]
fn port_from_text_agrees_with_the_standard_parser() {
    for text in [
        "", "+", "-", "-0", "+0", "0", "1", "9", "10", "65534", "65535", "65536", "655350",
        "000065535", "+65535", "+65536", "12a", "a12", "1 2", "\u{662}", "4294967296",
        "4294967297", "42949672960000",
    ] {
        assert_eq!(port_from_text(text), text.parse::<u16>().ok(), "{:?}", text);
    }
}

#[test]
fn trim_prefix_takes_one_leading_prefix_off() {
    assert_eq!(trim_prefix("refs/heads/main", "refs/heads/"), "main");
    assert_eq!(trim_prefix("refs/heads/", "refs/heads/"), "");
    assert_eq!(trim_prefix("refs/heads", "refs/heads/"), "refs/heads");
    assert_eq!(trim_prefix("main", "refs/heads/"), "main");
    assert_eq!(trim_prefix("xrefs/heads/main", "refs/heads/"), "xrefs/heads/main");
    assert_eq!(trim_prefix("refs/heads/refs/heads/a", "refs/heads/"), "refs/heads/a");
    assert_eq!(trim_prefix("", "refs/heads/"), "");
    assert_eq!(trim_prefix("abc", ""), "abc");
}

#[test]
fn trim_prefix_counts_characters_not_bytes() {
    assert_eq!(trim_prefix("\u{e9}t\u{e9}/main", "\u{e9}t\u{e9}/"), "main");
    assert_eq!(trim_prefix("\u{e9}", "\u{e9}"), "");
    assert_eq!(trim_prefix("refs/heads/\u{1f680}", "refs/heads/"), "\u{1f680}");
    assert_eq!(trim_prefix("\u{e9}a", "\u{e8}"), "\u{e9}a");
    assert_eq!(trim_prefix("e", "\u{e9}"), "e");
}

#[test]
fn joins_put_texts_one_after_another() {
    assert_eq!(join2("a", "b"), "ab");
    assert_eq!(join2("", ""), "");
    assert_eq!(join3("Repository ", "x", " not found"), "Repository x not found");
}
