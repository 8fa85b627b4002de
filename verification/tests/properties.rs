use reru::classify::has_start_anchor;
use reru::classify::needs_backtracking;
use reru::compile;
use reru::escape;
use reru::PatternCache;
use reru::ReConfig;

#[test]
fn classifier_routes_backreference_to_backtracking() {
    assert!(needs_backtracking("\\1"));
}

#[test]
fn classifier_routes_lookahead_to_backtracking() {
    assert!(needs_backtracking("(?=x)"));
    assert!(needs_backtracking("(?!x)"));
    assert!(needs_backtracking("(?<=x)"));
    assert!(needs_backtracking("(?<!x)"));
}

#[test]
fn classifier_routes_plain_patterns_to_simple() {
    assert!(!needs_backtracking("abc"));
    assert!(!needs_backtracking("a+b*"));
}

#[test]
fn classifier_skips_other_escapes_and_named_groups() {
    assert!(!needs_backtracking("\\d+(?<year>x)"));
    assert!(!needs_backtracking("\\(?="));
    assert!(needs_backtracking("\\d\\1"));
    assert!(!needs_backtracking("\\"));
}

#[test]
fn anchor_detection() {
    assert!(has_start_anchor("^a"));
    assert!(has_start_anchor("\\Ab"));
    assert!(!has_start_anchor("a^"));
    assert!(!has_start_anchor("\\d"));
    assert!(!has_start_anchor(""));
}

#[test]
fn findall_alternation_yields_each_match_in_order() {
    let cache = PatternCache::new();
    let p = compile(&cache, "a|b", None).unwrap();
    let all = p.findall("abab");
    assert_eq!(all, vec!["a", "b", "a", "b"]);
}

#[test]
fn named_group_resolves_by_name_and_index() {
    let cache = PatternCache::new();
    let p = compile(&cache, "(?<year>\\d+)", None).unwrap();
    let m = p.fmatch("2024").unwrap();
    assert_eq!(m.group_name("year").unwrap(), "2024");
    assert_eq!(m.group(1).unwrap(), "2024");
    assert_eq!(m.group(0).unwrap(), "2024");
    let names = p.group_names();
    assert_eq!(names, vec!["year"]);
}

#[test]
fn escape_makes_any_text_match_itself_literally() {
    let cache = PatternCache::new();
    let text = "a+b*c?d(e)f[g]h{i}j|k^l$m.n\\o#p&q-r~s";
    let escaped = escape(text).unwrap();
    let p = compile(&cache, escaped.as_str(), None).unwrap();
    assert!(p.is_match(text));
    assert!(p.is_search(text));
    let m = p.fmatch(text).unwrap();
    assert_eq!(m.group(0).unwrap(), text);
}

#[test]
fn escape_is_literal_only() {
    let cache = PatternCache::new();
    let escaped = escape("a.b").unwrap();
    assert_eq!(escaped, "a\\.b");
    let p = compile(&cache, escaped.as_str(), None).unwrap();
    assert!(p.is_search("xa.by"));
    assert!(!p.is_search("xaXby"));
}

#[test]
fn escape_exact_forms() {
    assert_eq!(escape("abc").unwrap(), "abc");
    assert_eq!(escape("").unwrap(), "");
    assert_eq!(escape("1+1=2").unwrap(), "1\\+1=2");
}

#[test]
fn match_agrees_with_search_restricted_to_offset_zero() {
    let cache = PatternCache::new();
    let cases = [
        ("a+", "aaab"),
        ("a+", "baaa"),
        ("b", "abc"),
        ("\\d+", "12x"),
        ("\\d+", "x12"),
        ("(a)(b)?", "ab"),
        ("x", ""),
    ];
    for (pat, text) in cases.iter() {
        let p = compile(&cache, pat, None).unwrap();
        let via_match = p.fmatch(text);
        let via_search = p.search(text).unwrap();
        let search_at_zero = via_search.as_ref().map(|m| m.start() == 0).unwrap_or(false);
        assert_eq!(via_match.is_some(), search_at_zero);
        if let (Some(m), Some(s)) = (via_match, via_search) {
            if s.start() == 0 {
                assert_eq!(m.group(0).unwrap(), s.group(0).unwrap());
                assert_eq!(m.start(), s.start());
                assert_eq!(m.end(), s.end());
            }
        }
    }
}

#[test]
fn repeated_compiles_share_one_cache_entry() {
    let cache = PatternCache::new();
    let a = compile(&cache, "a|b", None).unwrap();
    let b = compile(&cache, "a|b", None).unwrap();
    assert_eq!(cache.default_len(), 1);
    assert_eq!(a.is_search("zb"), b.is_search("zb"));
    assert_eq!(a.findall("abab"), b.findall("abab"));
    assert_eq!(a.engine_info(), b.engine_info());
    let _ = compile(&cache, "c", None).unwrap();
    assert_eq!(cache.default_len(), 2);
}

#[test]
fn configured_compiles_cache_under_their_configuration() {
    let cache = PatternCache::new();
    let cfg = ReConfig::new(true, false, false, true, None, 10000000, None);
    let a = compile(&cache, "abc", Some(cfg)).unwrap();
    let b = compile(&cache, "abc", Some(cfg)).unwrap();
    assert_eq!(cache.config_len(), 1);
    assert_eq!(cache.default_len(), 0);
    assert!(a.is_search("xABCy"));
    assert!(b.is_search("xABCy"));
    let other = ReConfig::new(false, false, false, true, None, 10000000, None);
    let c = compile(&cache, "abc", Some(other)).unwrap();
    assert_eq!(cache.config_len(), 2);
    assert!(!c.is_search("xABCy"));
}

#[test]
fn every_reported_span_lies_inside_the_text() {
    let cache = PatternCache::new();
    let cases = [
        ("(a)(b)?c?", "abc"),
        ("(x)|(y)", "zy"),
        ("a*", ""),
        ("é+", "café"),
    ];
    for (pat, text) in cases.iter() {
        let p = compile(&cache, pat, None).unwrap();
        if let Some(m) = p.search(text).unwrap() {
            assert!(m.start() <= m.end());
            assert!(m.end() <= text.len());
            let last = m.lastindex() as i32;
            for g in 0..=last {
                let sub = m.group(g).unwrap();
                assert!(sub.len() <= text.len());
            }
        }
    }
}
