use lambda_web_adapter::{decimal_text, parse_bool, parse_u16, trim_base_path};

#[test]
fn base_path_is_removed_once() {
    assert_eq!(trim_base_path("/api/users", "/api"), "/users");
}

#[test]
fn base_path_is_removed_as_often_as_it_stands_there() {
    assert_eq!(trim_base_path("/api/api/users/api", "/api"), "/users/api");
    assert_eq!(trim_base_path("/api/api", "/api"), "");
}

#[test]
fn path_outside_the_base_path_stays() {
    assert_eq!(trim_base_path("/other/api", "/api"), "/other/api");
    assert_eq!(trim_base_path("/ap", "/api"), "/ap");
    assert_eq!(trim_base_path("", "/api"), "");
}

#[test]
fn base_path_is_a_prefix_of_characters_and_not_of_segments() {
    assert_eq!(trim_base_path("/apiary", "/api"), "ary");
}

#[test]
fn empty_base_path_removes_nothing() {
    assert_eq!(trim_base_path("/api", ""), "/api");
    assert_eq!(trim_base_path("", ""), "");
}

#[test]
fn base_path_outside_ascii() {
    assert_eq!(trim_base_path("/é/é/ü", "/é"), "/ü");
    assert_eq!(trim_base_path("/è", "/é"), "/è");
}

#[test]
fn trimming_agrees_with_the_standard_library() {
    let paths = ["", "/", "/a", "/a/a", "/a/b", "a", "aa", "aaa", "/ä/a", "//", "///"];
    let bases = ["", "/", "/a", "a", "aa", "/ä", "//"];
    for path in paths {
        for base in bases {
            assert_eq!(trim_base_path(path, base), path.trim_start_matches(base));
        }
    }
}

#[test]
fn trimming_twice_is_trimming_once() {
    for path in ["/api/api/users", "/users", "/api", ""] {
        let once = trim_base_path(path, "/api");
        assert_eq!(trim_base_path(once, "/api"), once);
    }
}

#[test]
fn one_more_base_path_changes_nothing() {
    for base in ["/api", "a", ""] {
        for path in ["/api/users", "/users", "/api", "aab", ""] {
            let longer = format!("{}{}", base, path);
            assert_eq!(trim_base_path(&longer, base), trim_base_path(path, base));
        }
    }
}

#[test]
fn numbers_are_read_as_the_standard_library_reads_them() {
    let texts = [
        "0", "7", "500", "+403", "65535", "65536", "99999999999999999999", "007", "000000065535", "",
        "+", "-1", "-0", "++1", "1+", " 1", "1 ", "1_0", "0x1", "४", "1.0", "abc",
    ];
    for text in texts {
        assert_eq!(parse_u16(text), text.parse::<u16>().ok());
    }
}

#[test]
fn number_with_a_sign() {
    assert_eq!(parse_u16("+403"), Some(403));
    assert_eq!(parse_u16("-403"), None);
}

#[test]
fn written_numbers_read_back() {
    for number in [0, 9, 10, 80, 403, 8080, 9999, 10000, 65535] {
        assert_eq!(parse_u16(&decimal_text(number)), Some(number));
    }
    assert_eq!(decimal_text(0), "0");
    assert_eq!(decimal_text(65535), "65535");
    assert_eq!(decimal_text(10203), "10203");
}

#[test]
fn truth_values_letter_for_letter() {
    assert_eq!(parse_bool("true"), Some(true));
    assert_eq!(parse_bool("false"), Some(false));
    for text in ["", "True", "TRUE", "1", "0", "yes", " true", "true "] {
        assert_eq!(parse_bool(text), text.parse::<bool>().ok());
    }
}
