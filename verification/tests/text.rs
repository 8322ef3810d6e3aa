use my_retreat_nest::text::{
    contains_str, i64_to_decimal, like_pattern, param_equals, str_eq, u64_to_decimal,
};

#[test]
fn decimal_rendering_matches_format() {
    for n in [0u64, 7, 10, 99, 1234567890, u64::MAX] {
        assert_eq!(u64_to_decimal(n), format!("{}", n));
    }
    for n in [0i64, -1, 42, -42, i64::MAX, i64::MIN] {
        assert_eq!(i64_to_decimal(n), format!("{}", n));
    }
}

#[test]
fn distinct_numbers_render_distinctly() {
    let rendered: Vec<String> = (0u64..1000).map(u64_to_decimal).collect();
    for i in 0..rendered.len() {
        for j in (i + 1)..rendered.len() {
            assert_ne!(rendered[i], rendered[j]);
        }
    }
}

#[test]
fn string_comparison_and_search() {
    assert!(str_eq("pending", "pending"));
    assert!(!str_eq("pending", "Pending"));
    assert!(!str_eq("pend", "pending"));
    assert!(contains_str("duplicate key value", "key"));
    assert!(contains_str("abc", ""));
    assert!(contains_str("abc", "abc"));
    assert!(!contains_str("ab", "abc"));
    assert!(!contains_str("unique", "uniqe"));
}

#[test]
fn like_pattern_wraps_search() {
    assert_eq!(like_pattern("spa"), "%spa%");
    assert_eq!(like_pattern(""), "%%");
}

#[test]
fn query_parameter_words() {
    assert!(param_equals(&Some("name".to_string()), "name"));
    assert!(!param_equals(&Some("names".to_string()), "name"));
    assert!(!param_equals(&None, "name"));
}
