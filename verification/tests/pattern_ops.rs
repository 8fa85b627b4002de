use reru::compile;
use reru::compile_custom;
use reru::find;
use reru::is_match;
use reru::is_search;
use reru::search;
use reru::sub;
use reru::AppError;
use reru::PatternCache;
use reru::ReConfig;
use reru::SelectEngine;

#[test]
fn is_match_checks_only_the_start() {
    let cache = PatternCache::new();
    assert!(is_match(&cache, "a+", "aaab", None).unwrap());
    assert!(!is_match(&cache, "a+", "baaa", None).unwrap());
    assert!(is_search(&cache, "a+", "baaa", None).unwrap());
    assert!(!is_search(&cache, "a+", "bbb", None).unwrap());
}

#[test]
fn anchored_pattern_reuses_the_search_automaton() {
    let cache = PatternCache::new();
    let p = compile(&cache, "^ab", None).unwrap();
    assert!(p.is_match("abc"));
    assert!(!p.is_match("cab"));
    assert!(!p.is_search("cab"));
    let q = compile(&cache, "\\Aab", None).unwrap();
    assert!(q.is_match("abc"));
    assert!(!q.is_match("cab"));
}

#[test]
fn find_returns_the_leftmost_span_only() {
    let cache = PatternCache::new();
    let p = compile(&cache, "b+", None).unwrap();
    let m = p.find("abbcb").unwrap();
    assert_eq!(m.start(), 1);
    assert_eq!(m.end(), 3);
    assert_eq!(m.group(0).unwrap(), "bb");
    assert_eq!(m.lastindex(), 0);
    assert!(p.find("xyz").is_none());
}

#[test]
fn top_level_find_matches_at_start() {
    let cache = PatternCache::new();
    let m = find(&cache, "(a)(b)", "abab", None).unwrap().unwrap();
    assert_eq!(m.group(0).unwrap(), "ab");
    assert_eq!(m.group(1).unwrap(), "a");
    assert_eq!(m.group(2).unwrap(), "b");
    assert!(find(&cache, "(b)", "abab", None).unwrap().is_none());
}

#[test]
fn top_level_search_finds_anywhere() {
    let cache = PatternCache::new();
    let m = search(&cache, "(b)(c)?", "abc", None).unwrap().unwrap();
    assert_eq!(m.start(), 1);
    assert_eq!(m.end(), 3);
    assert_eq!(m.group(1).unwrap(), "b");
    assert_eq!(m.group(2).unwrap(), "c");
    assert!(search(&cache, "q", "abc", None).unwrap().is_none());
}

#[test]
fn groups_lists_every_capture_after_the_whole_match() {
    let cache = PatternCache::new();
    let m = search(&cache, "(a)(x)?(b)", "ab", None).unwrap().unwrap();
    assert_eq!(m.lastindex(), 3);
    let gs = m.groups(0).unwrap();
    assert_eq!(gs.len(), 3);
    assert_eq!(gs[0].as_deref(), Some("a"));
    assert_eq!(gs[1].as_deref(), Some(""));
    assert_eq!(gs[2].as_deref(), Some("b"));
}

#[test]
fn group_out_of_bounds_reports_the_index() {
    let cache = PatternCache::new();
    let m = search(&cache, "(a)", "a", None).unwrap().unwrap();
    match m.group(5) {
        Err(AppError::IndexOutOfBounds(d)) => assert_eq!(d.message, "Group 5 not found"),
        _ => panic!("expected an index error"),
    }
    match m.group(-1) {
        Err(AppError::IndexOutOfBounds(d)) => assert_eq!(d.message, "Group -1 not found"),
        _ => panic!("expected an index error"),
    }
}

#[test]
fn unknown_group_name_reports_the_name() {
    let cache = PatternCache::new();
    let m = search(&cache, "(?<x>a)", "a", None).unwrap().unwrap();
    assert_eq!(m.group_name("x").unwrap(), "a");
    match m.group_name("y") {
        Err(AppError::IndexOutOfBounds(d)) => {
            assert_eq!(d.message, "Group name 'y' not defined")
        },
        _ => panic!("expected a name error"),
    }
}

#[test]
fn sub_replaces_every_occurrence() {
    let cache = PatternCache::new();
    assert_eq!(sub(&cache, "a|b", "-", "abab", None).unwrap(), "----");
    assert_eq!(sub(&cache, "(a)", "$1$1", "xax", None).unwrap(), "xaax");
    assert_eq!(sub(&cache, "q", "-", "abab", None).unwrap(), "abab");
}

#[test]
fn invalid_pattern_is_a_compile_error() {
    let cache = PatternCache::new();
    match compile(&cache, "(", None) {
        Err(AppError::RegexError(d)) => assert!(d.message.starts_with("Regex error: ")),
        _ => panic!("expected a compile error"),
    }
    assert!(is_match(&cache, "(", "x", None).is_err());
}

#[test]
fn forced_simple_backend_rejects_backreferences() {
    match compile_custom("(a)\\1", None, Some(SelectEngine::Std)) {
        Err(AppError::RegexError(d)) => {
            assert!(d.message.contains("backreferences are not supported"));
            assert!(d.message.contains("regex parse error"));
        },
        _ => panic!("expected a compile error"),
    }
}

#[test]
fn forced_backtracking_backend_compiles_plain_patterns() {
    let p = compile_custom("ab+", None, Some(SelectEngine::Fancy)).unwrap();
    assert_eq!(p.engine_info(), "fancy_regex");
    assert!(p.is_search("xabb"));
    assert!(p.is_match("abb"));
    assert!(!p.is_match("xabb"));
}

#[test]
fn compile_custom_skips_the_cache() {
    let p = compile_custom("(x)|y", None, None).unwrap();
    assert!(p.is_search("zy"));
    let m = p.search("zy").unwrap().unwrap();
    assert_eq!(m.group(0).unwrap(), "y");
    assert_eq!(m.group(1).unwrap(), "");
}

#[test]
fn multibyte_text_spans_stay_on_character_boundaries() {
    let cache = PatternCache::new();
    let m = search(&cache, "é+", "caféé!", None).unwrap().unwrap();
    assert_eq!(m.group(0).unwrap(), "éé");
    assert_eq!(m.start(), 3);
    assert_eq!(m.end(), 7);
    let p = compile(&cache, "a*", None).unwrap();
    assert_eq!(p.findall("bb"), vec!["", "", ""]);
}

#[test]
fn error_messages_render_for_users() {
    let e = AppError::InvalidPattern(reru::ReError::new("bad".to_string()));
    assert_eq!(e.message(), "bad");
    assert_eq!(e.source().message_str(), "bad");
    let r = AppError::RegexError(reru::ReError::new("detail".to_string()));
    assert_eq!(r.message(), "detail");
    assert_eq!(r.source().message_str(), "detail");
    let from: AppError = AppError::from(reru::ReError::new("d2".to_string()));
    assert!(matches!(from, AppError::RegexError(_)));
}
