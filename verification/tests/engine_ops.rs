use reru::compile;
use reru::config::resolve_options;
use reru::engine::create_engine;
use reru::engine::fancy_engine;
use reru::engine::std_engine;
use reru::PatternCache;
use reru::ReConfig;
use reru::ReEngine;

#[test]
fn automatic_selection_prefers_the_simple_backend() {
    let cache = PatternCache::new();
    let plain = compile(&cache, "abc", None).unwrap();
    assert_eq!(plain.engine_info(), "regex");
    let backref = compile(&cache, "(a)\\1", None).unwrap();
    assert_eq!(backref.engine_info(), "fancy_regex");
    assert!(backref.is_search("xaa"));
    assert!(!backref.is_search("xab"));
    let lookbehind = compile(&cache, "(?<=a)b", None).unwrap();
    assert_eq!(lookbehind.engine_info(), "fancy_regex");
    assert!(lookbehind.is_search("ab"));
    assert!(!lookbehind.is_search("cb"));
}

#[test]
fn engine_split_keeps_the_pieces_between_matches() {
    let opts = resolve_options(None);
    let e = std_engine(",", &opts).unwrap();
    assert_eq!(e.split("a,b,c"), vec!["a", "b", "c"]);
    let f = fancy_engine(",", &opts).unwrap();
    assert_eq!(f.split("a,b,c"), vec!["a", "b", "c"]);
    assert_eq!(e.split("abc"), vec!["abc"]);
}

#[test]
fn engine_fmatch_restricts_captures_to_offset_zero() {
    let opts = resolve_options(None);
    let e = std_engine("b+", &opts).unwrap();
    assert!(e.fmatch("bba").is_some());
    assert!(e.fmatch("abb").is_none());
    let m = e.fmatch("bba").unwrap();
    assert_eq!(m.start(), 0);
    assert_eq!(m.end(), 2);
    let s = e.search("abb").unwrap().unwrap();
    assert_eq!(s.start(), 1);
}

#[test]
fn engine_find_reports_byte_offsets() {
    let opts = resolve_options(None);
    let e = create_engine("b", &opts, None).unwrap();
    assert_eq!(e.find("abc"), Some((1, 2)));
    assert_eq!(e.find("xyz"), None);
}

#[test]
fn engine_escape_protects_every_meta_character() {
    let escaped = ReEngine::escape("\\.+*?()|[]{}^$#&-~").unwrap();
    assert_eq!(
        escaped,
        "\\\\\\.\\+\\*\\?\\(\\)\\|\\[\\]\\{\\}\\^\\$\\#\\&\\-\\~"
    );
}

#[test]
fn backtrack_limit_failures_read_as_no_match() {
    let cfg = ReConfig::new(false, false, false, true, None, 10000000, Some(1));
    let cache = PatternCache::new();
    let p = compile(&cache, "(a|b)+c\\1", Some(cfg)).unwrap();
    assert_eq!(p.engine_info(), "fancy_regex");
    let text = "ab".repeat(40);
    assert!(!p.is_search(text.as_str()));
}

#[test]
fn case_insensitive_configuration_folds_case() {
    let cache = PatternCache::new();
    let cfg = ReConfig::new(true, false, false, true, None, 10000000, None);
    let p = compile(&cache, "abc", Some(cfg)).unwrap();
    assert!(p.is_search("xAbCy"));
    let plain = compile(&cache, "abc", None).unwrap();
    assert!(!plain.is_search("xAbCy"));
}

#[test]
fn multiline_configuration_anchors_at_line_starts() {
    let cache = PatternCache::new();
    let cfg = ReConfig::new(false, false, true, true, None, 10000000, None);
    let p = compile(&cache, "^b", Some(cfg)).unwrap();
    assert!(p.is_search("a\nb"));
    let plain = compile(&cache, "^b", None).unwrap();
    assert!(!plain.is_search("a\nb"));
}

#[test]
fn whitespace_insensitive_configuration_ignores_pattern_spaces() {
    let cache = PatternCache::new();
    let cfg = ReConfig::new(false, true, false, true, None, 10000000, None);
    let p = compile(&cache, "a b", Some(cfg)).unwrap();
    assert!(p.is_search("xaby"));
    assert!(!p.is_search("xa by"));
}

#[test]
fn stock_configuration_values() {
    let d = ReConfig::default();
    assert!(!d.case_insensitive);
    assert!(!d.ignore_whitespace);
    assert!(!d.multiline);
    assert!(!d.unicode_mode);
    assert_eq!(d.size_limit, None);
    assert_eq!(d.dfa_size_limit, 10000000);
    assert_eq!(d.backtrack_limit, None);
    let built = ReConfig::new(true, true, true, true, Some(5), 7, Some(9));
    assert!(built.case_insensitive);
    assert_eq!(built.size_limit, Some(5));
    assert_eq!(built.dfa_size_limit, 7);
    assert_eq!(built.backtrack_limit, Some(9));
}

#[test]
fn size_limit_configuration_rejects_large_patterns() {
    let cache = PatternCache::new();
    let cfg = ReConfig::new(false, false, false, true, Some(40), 10000000, None);
    assert!(compile(&cache, "\\w{100}", Some(cfg)).is_err());
    let roomy = ReConfig::new(false, false, false, true, None, 10000000, None);
    assert!(compile(&cache, "\\w{100}", Some(roomy)).is_ok());
}

#[test]
fn backtracking_backend_find_findall_and_sub() {
    let cache = PatternCache::new();
    let p = compile(&cache, "(?<=a)b", None).unwrap();
    assert_eq!(p.engine_info(), "fancy_regex");
    let m = p.find("abab").unwrap();
    assert_eq!(m.start(), 1);
    assert_eq!(m.end(), 2);
    assert_eq!(p.findall("abab"), vec!["b", "b"]);
    assert_eq!(p.sub("X", "abab").unwrap(), "aXaX");
    let back = compile(&cache, "(a)\\1", None).unwrap();
    let f = back.find("baa").unwrap();
    assert_eq!(f.start(), 1);
    assert_eq!(f.end(), 3);
    let m = back.search("baa").unwrap().unwrap();
    assert_eq!(m.group(0).unwrap(), "aa");
    assert_eq!(m.group(1).unwrap(), "a");
    let at_start = back.fmatch("aab").unwrap();
    assert_eq!(at_start.group(0).unwrap(), "aa");
    assert!(back.fmatch("baa").is_none());
}

#[test]
fn duplicate_group_names_resolve_to_a_single_index() {
    let cache = PatternCache::new();
    let p = compile(&cache, "(?<x>a)(?<x>b)", None).unwrap();
    assert_eq!(p.engine_info(), "fancy_regex");
    assert_eq!(p.group_names().len(), 1);
    let m = p.search("ab").unwrap().unwrap();
    let g = m.group_name("x").unwrap();
    assert!(g == "a" || g == "b");
}
