use matrix_fuzz::paths::{classify_token, parse_template};
use matrix_fuzz::probe::{PathPiece, TokenRole};
use matrix_fuzz::text::{
    parse_status_code, sanitize_path_value, str_contains, str_eq, strip_nul, trim_template,
};

fn token_roles(pieces: &Vec<PathPiece>) -> Vec<(String, TokenRole)> {
    let mut out = Vec::new();
    for p in pieces {
        if let PathPiece::Token(t) = p {
            out.push((t.text.clone(), t.role));
        }
    }
    out
}

#[test]
fn tokenizer_splits_literals_and_tokens() {
    let pieces = parse_template("/rooms/{roomId}/state/{eventType}");
    assert_eq!(pieces.len(), 4);
    match &pieces[0] {
        PathPiece::Literal(s) => assert_eq!(s, "/rooms/"),
        _ => panic!("expected literal"),
    }
    match &pieces[1] {
        PathPiece::Token(t) => {
            assert_eq!(t.text, "roomId");
            assert_eq!(t.role, TokenRole::RoomScoped);
        },
        _ => panic!("expected token"),
    }
    match &pieces[2] {
        PathPiece::Literal(s) => assert_eq!(s, "/state/"),
        _ => panic!("expected literal"),
    }
    match &pieces[3] {
        PathPiece::Token(t) => {
            assert_eq!(t.text, "eventType");
            assert_eq!(t.role, TokenRole::Unclassified);
        },
        _ => panic!("expected token"),
    }
}

#[test]
fn tokenizer_handles_unmatched_brace() {
    let pieces = parse_template("/a/{never");
    assert_eq!(pieces.len(), 1);
    match &pieces[0] {
        PathPiece::Literal(s) => assert_eq!(s, "/a/{never"),
        _ => panic!("expected literal"),
    }
}

#[test]
fn tokenizer_adjacent_tokens() {
    let pieces = parse_template("{a}{b}");
    assert_eq!(pieces.len(), 2);
    let toks = token_roles(&pieces);
    assert_eq!(toks[0].0, "a");
    assert_eq!(toks[1].0, "b");
}

#[test]
fn tokenizer_shortest_match_to_next_close() {
    // A stray close brace before any open brace is literal; an open
    // brace inside a token extends it to the next close brace.
    let pieces = parse_template("/a}/{b}");
    assert_eq!(pieces.len(), 2);
    match &pieces[0] {
        PathPiece::Literal(s) => assert_eq!(s, "/a}/"),
        _ => panic!("expected literal"),
    }
    let nested = parse_template("{a{b}");
    assert_eq!(nested.len(), 1);
    match &nested[0] {
        PathPiece::Token(t) => assert_eq!(t.text, "a{b"),
        _ => panic!("expected token"),
    }
}

#[test]
fn tokenizer_template_without_tokens() {
    let pieces = parse_template("/_matrix/client/v3/login");
    assert_eq!(pieces.len(), 1);
    match &pieces[0] {
        PathPiece::Literal(s) => assert_eq!(s, "/_matrix/client/v3/login"),
        _ => panic!("expected literal"),
    }
}

#[test]
fn classifier_keeps_token_order() {
    // The unclassified substitutions are the tokens minus roomId/userId
    // matches, in left-to-right order.
    let pieces = parse_template("/a/{roomId}/{first}/{userId}/{second}");
    let toks = token_roles(&pieces);
    assert_eq!(toks.len(), 4);
    assert_eq!(toks[0], ("roomId".to_string(), TokenRole::RoomScoped));
    assert_eq!(toks[1], ("first".to_string(), TokenRole::Unclassified));
    assert_eq!(toks[2], ("userId".to_string(), TokenRole::UserScoped));
    assert_eq!(toks[3], ("second".to_string(), TokenRole::Unclassified));
    let unclassified: Vec<String> = toks
        .iter()
        .filter(|(text, _)| !text.contains("roomId") && !text.contains("userId"))
        .map(|(text, _)| text.clone())
        .collect();
    assert_eq!(unclassified, vec!["first".to_string(), "second".to_string()]);
}

#[test]
fn classifier_matches_substrings() {
    assert_eq!(classify_token("myRoomIdHere"), TokenRole::Unclassified);
    assert_eq!(classify_token("aroomIdb"), TokenRole::RoomScoped);
    assert_eq!(classify_token("userId"), TokenRole::UserScoped);
    assert_eq!(classify_token("txnId"), TokenRole::Unclassified);
}

#[test]
fn sanitize_strips_separator_and_nul() {
    assert_eq!(sanitize_path_value("a/b\0c", 255), "abc");
    assert_eq!(sanitize_path_value("plain", 255), "plain");
    assert_eq!(sanitize_path_value("", 255), "");
}

#[test]
fn sanitize_truncates_at_utf8_boundary() {
    let long = "a".repeat(300);
    assert_eq!(sanitize_path_value(&long, 255), "a".repeat(255));
    // Two-byte characters: 128 of them exceed 255 bytes, so one is
    // dropped rather than splitting the encoding.
    let wide = "\u{e9}".repeat(128);
    assert_eq!(sanitize_path_value(&wide, 255), "\u{e9}".repeat(127));
}

#[test]
fn trim_removes_surrounding_whitespace() {
    assert_eq!(trim_template("  /a/{b} \n"), "/a/{b}");
    assert_eq!(trim_template("/a"), "/a");
    assert_eq!(trim_template("   "), "");
    assert_eq!(trim_template(""), "");
}

#[test]
fn strip_nul_removes_only_nul() {
    assert_eq!(strip_nul("a\0b/c\0"), "ab/c");
    assert_eq!(strip_nul("clean"), "clean");
}

#[test]
fn string_search_helpers() {
    assert!(str_contains("hello world", "o w"));
    assert!(str_contains("hello", ""));
    assert!(!str_contains("hello", "world"));
    assert!(!str_contains("ab", "abc"));
    assert!(str_eq("same", "same"));
    assert!(!str_eq("same", "sane"));
}

#[test]
fn status_code_parsing() {
    assert_eq!(parse_status_code("200"), Some(200));
    assert_eq!(parse_status_code("65535"), Some(65535));
    assert_eq!(parse_status_code("65536"), None);
    assert_eq!(parse_status_code(""), None);
    assert_eq!(parse_status_code("4xx"), None);
    assert_eq!(parse_status_code("-1"), None);
}
