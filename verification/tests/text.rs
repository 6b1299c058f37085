use monitoring::text::{
    append_decimal, chars_of, find_in, first_segment, last_segment, parse_count, range_is,
    slice_of, split_on,
};

fn chars(s: &str) -> Vec<char> {
    s.chars().collect()
}

fn count(s: &str) -> Option<usize> {
    let v = chars(s);
    parse_count(&v, 0, v.len())
}

fn numeral(n: usize) -> String {
    let mut out = String::new();
    append_decimal(&mut out, n);
    out
}

#[test]
fn chars_of_keeps_every_character_in_order() {
    assert_eq!(chars_of("a\tb\n"), vec!['a', '\t', 'b', '\n']);
    assert_eq!(chars_of(""), Vec::<char>::new());
    assert_eq!(chars_of("héllo"), vec!['h', 'é', 'l', 'l', 'o']);
}

#[test]
fn find_in_gives_the_first_match_in_the_range() {
    let v = chars("a,b,c");
    assert_eq!(find_in(&v, ',', 0, 5), 1);
    assert_eq!(find_in(&v, ',', 2, 5), 3);
    assert_eq!(find_in(&v, ',', 4, 5), 5);
    assert_eq!(find_in(&v, ',', 0, 1), 1);
    assert_eq!(find_in(&v, 'x', 0, 5), 5);
    assert_eq!(find_in(&v, 'a', 0, 0), 0);
}

#[test]
fn range_is_compares_exactly() {
    let v = chars("zk_server_state\tleader");
    assert!(range_is(&v, 0, 15, &chars("zk_server_state")));
    assert!(!range_is(&v, 0, 14, &chars("zk_server_state")));
    assert!(!range_is(&v, 0, 15, &chars("zk_server_stats")));
    assert!(range_is(&v, 16, 22, &chars("leader")));
    assert!(range_is(&v, 3, 3, &chars("")));
}

#[test]
fn slice_of_counts_characters_not_bytes() {
    assert_eq!(slice_of("héllo wörld", 1, 4), "éll");
    assert_eq!(slice_of("abc", 0, 3), "abc");
    assert_eq!(slice_of("abc", 2, 2), "");
}

#[test]
fn first_segment_stops_at_the_first_separator() {
    assert_eq!(first_segment("db.sync.eu", '.'), "db");
    assert_eq!(first_segment("db", '.'), "db");
    assert_eq!(first_segment(".db", '.'), "");
    assert_eq!(first_segment("", '.'), "");
}

#[test]
fn last_segment_starts_after_the_last_separator() {
    assert_eq!(last_segment("rabbit@host-a", '@'), "host-a");
    assert_eq!(last_segment("a@b@c", '@'), "c");
    assert_eq!(last_segment("plain", '@'), "plain");
    assert_eq!(last_segment("rabbit@", '@'), "");
    assert_eq!(last_segment("", '@'), "");
}

#[test]
fn split_on_keeps_order_and_empty_pieces() {
    assert_eq!(split_on("z1,z2,z3", ','), vec!["z1", "z2", "z3"]);
    assert_eq!(split_on("z1", ','), vec!["z1"]);
    assert_eq!(split_on("", ','), vec![""]);
    assert_eq!(split_on("a,,b", ','), vec!["a", "", "b"]);
    assert_eq!(split_on(",a,", ','), vec!["", "a", ""]);
}

#[test]
fn split_on_agrees_with_the_standard_split() {
    for s in ["", ",", "a", "a,b", ",,", "zoo-1.local,zoo-2.local", "x,y,z,"] {
        let expected: Vec<String> = s.split(',').map(String::from).collect();
        assert_eq!(split_on(s, ','), expected);
    }
}

#[test]
fn append_decimal_writes_the_shortest_numeral() {
    assert_eq!(numeral(0), "0");
    assert_eq!(numeral(7), "7");
    assert_eq!(numeral(10), "10");
    assert_eq!(numeral(2024), "2024");
    assert_eq!(numeral(usize::MAX), usize::MAX.to_string());
}

#[test]
fn append_decimal_keeps_what_was_written_before() {
    let mut out = String::from("followers: ");
    append_decimal(&mut out, 42);
    assert_eq!(out, "followers: 42");
}

#[test]
fn parse_count_reads_digits_with_an_optional_plus() {
    assert_eq!(count("0"), Some(0));
    assert_eq!(count("2"), Some(2));
    assert_eq!(count("+2"), Some(2));
    assert_eq!(count("002"), Some(2));
    assert_eq!(count("1234567890"), Some(1234567890));
}

#[test]
fn parse_count_refuses_what_is_no_count() {
    assert_eq!(count(""), None);
    assert_eq!(count("+"), None);
    assert_eq!(count("++1"), None);
    assert_eq!(count("-1"), None);
    assert_eq!(count("-0"), None);
    assert_eq!(count("2 "), None);
    assert_eq!(count(" 2"), None);
    assert_eq!(count("2a"), None);
    assert_eq!(count("1.5"), None);
    assert_eq!(count("٢"), None);
}

#[test]
fn parse_count_refuses_what_does_not_fit() {
    assert_eq!(count(&usize::MAX.to_string()), Some(usize::MAX));
    let mut too_big = usize::MAX.to_string();
    too_big.push('0');
    assert_eq!(count(&too_big), None);
    assert_eq!(count("99999999999999999999999999999999999999999"), None);
}

#[test]
fn parse_count_agrees_with_the_standard_parse() {
    for s in ["", "+", "0", "+0", "-0", "17", "+17", "017", "1_7", "0x11", "18446744073709551616"] {
        assert_eq!(count(s), s.parse::<usize>().ok(), "{}", s);
    }
}

#[test]
fn parse_count_reads_a_range_only() {
    let v = chars("followers\t12\tmore");
    assert_eq!(parse_count(&v, 10, 12), Some(12));
    assert_eq!(parse_count(&v, 10, 11), Some(1));
    assert_eq!(parse_count(&v, 9, 12), None);
    assert_eq!(parse_count(&v, 10, 10), None);
}

#[test]
fn reading_a_numeral_gives_the_number_back() {
    for n in [0usize, 1, 9, 10, 99, 100, 65535, 4294967295, usize::MAX] {
        assert_eq!(count(&numeral(n)), Some(n));
    }
}
