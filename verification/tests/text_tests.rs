use iconic::decimal::{bool_text_exec, decimal_exec, parse_bool_exec, parse_u64, parse_u8};
use iconic::text::{chars_of, join_exec, replace_all_exec, split_exec};

fn v(s: &str) -> Vec<char> {
    s.chars().collect()
}

#[test]
fn split_and_join() {
    let parts = split_exec(&v("a--b-"), '-');
    assert_eq!(parts, vec![v("a"), v(""), v("b"), v("")]);
    assert_eq!(join_exec(&parts, '-'), v("a--b-"));
    assert_eq!(split_exec(&v(""), '-'), vec![v("")]);
}

#[test]
fn replace_from_the_left() {
    assert_eq!(replace_all_exec(&v("aaaa"), &v("aa"), &v("b")), v("bb"));
    assert_eq!(replace_all_exec(&v("aaa"), &v("aa"), &v("")), v("a"));
    assert_eq!(replace_all_exec(&v("x.png.png"), &v(".png"), &v("")), v("x"));
}

#[test]
fn unsigned_numbers() {
    assert_eq!(parse_u8(&v("255")), Some(255));
    assert_eq!(parse_u8(&v("256")), None);
    assert_eq!(parse_u8(&v("+7")), Some(7));
    assert_eq!(parse_u8(&v("007")), Some(7));
    assert_eq!(parse_u8(&v("+")), None);
    assert_eq!(parse_u8(&v("-1")), None);
    assert_eq!(parse_u8(&v("")), None);
    assert_eq!(parse_u8(&v("1 ")), None);
    assert_eq!(parse_u64(&v("18446744073709551615")), Some(u64::MAX));
    assert_eq!(parse_u64(&v("18446744073709551616")), None);
    for n in [0u64, 9, 10, 255, 1000, u64::MAX] {
        assert_eq!(parse_u64(&decimal_exec(n)), Some(n));
        assert_eq!(decimal_exec(n).iter().collect::<String>(), n.to_string());
    }
}

#[test]
fn booleans() {
    assert_eq!(parse_bool_exec(&v("true")), Some(true));
    assert_eq!(parse_bool_exec(&v("false")), Some(false));
    assert_eq!(parse_bool_exec(&v("TRUE")), None);
    assert_eq!(bool_text_exec(true).iter().collect::<String>(), "true");
    assert_eq!(chars_of("fa\u{e9}"), vec!['f', 'a', '\u{e9}']);
}
