use quilore::numbers::{i64_to_text, parse_i64, parse_u32, parse_u64, u64_to_text};
use quilore::text::{contains, ends_with, lines, replace, split_in_two, split_on, starts_with, trim, trim_end};

#[test]
fn numbers_print_as_std_prints_them() {
    for n in [0i64, 7, 10, -1, -10, 1234567890, i64::MAX, i64::MIN, i64::MIN + 1, -9, 99, 100] {
        assert_eq!(i64_to_text(n), n.to_string());
    }
    for n in [0u64, 9, 10, 11, 4294967295, u64::MAX, 1000000000000000000] {
        assert_eq!(u64_to_text(n), n.to_string());
    }
    assert_eq!(u64_to_text(u64::MAX), "18446744073709551615");
    assert_eq!(i64_to_text(i64::MIN), "-9223372036854775808");
}

#[test]
fn numbers_are_read_as_std_reads_them() {
    let texts = [
        "0", "7", "+7", "-7", "-0", "+0", "007", "-007", "", "+", "-", "--1", "+-1", "-+1", "1-", "1 ",
        " 1", "1_000", "0x10", "1.0", "1e3", "９", "٣", "9223372036854775807", "9223372036854775808",
        "-9223372036854775808", "-9223372036854775809", "18446744073709551615", "18446744073709551616",
        "4294967295", "4294967296", "000000000000000000000000000000000000001",
        "99999999999999999999999999999999999999999", "12a", "a12", "1\n",
    ];
    for t in texts {
        assert_eq!(parse_i64(t), t.parse::<i64>().ok(), "i64 of {:?}", t);
        assert_eq!(parse_u64(t), t.parse::<u64>().ok(), "u64 of {:?}", t);
        assert_eq!(parse_u32(t), t.parse::<u32>().ok(), "u32 of {:?}", t);
    }
    assert_eq!(parse_i64("-42"), Some(-42));
    assert_eq!(parse_u64("-42"), None);
    assert_eq!(parse_u32("42"), Some(42));
}

#[test]
fn white_space_is_trimmed_as_std_trims_it() {
    let texts = [
        "", " ", "a", " a", "a ", "  a b  ", "\ta\n", "\r\n", "a\u{a0}", "\u{3000}a\u{2003}", "\u{85}x\u{1680}",
        "\u{200b}x\u{200b}", "x\u{feff}", "\u{2028}\u{2029}y\u{202f}\u{205f}", " \u{b}\u{c} z", "é ", " 午後 ",
        "\u{1c}a\u{1f}", "a\u{180e}",
    ];
    for t in texts {
        assert_eq!(trim(t), t.trim(), "trim of {:?}", t);
        assert_eq!(trim_end(t), t.trim_end(), "trim_end of {:?}", t);
    }
    for code in 0u32..0x3100 {
        if let Some(c) = char::from_u32(code) {
            let text = format!("a{c}");
            assert_eq!(trim_end(&text) == "a", c.is_whitespace(), "white space {:#x}", code);
        }
    }
}

#[test]
fn texts_are_cut_as_std_cuts_them() {
    for t in ["", "a", "a,b", ",a", "a,", ",", ",,", "a,,b,", "é,ü,", "no comma"] {
        let want: Vec<String> = t.split(',').map(|p| p.to_string()).collect();
        assert_eq!(split_on(t, ','), want, "split of {:?}", t);
        let want: Vec<String> = t.splitn(2, ',').map(|p| p.to_string()).collect();
        assert_eq!(split_in_two(t, ','), want, "splitn of {:?}", t);
    }
    for t in ["", "\n", "a", "a\n", "a\nb", "a\r\nb\r\n", "a\r", "a\n\nb", "\r\n", "a\rb\n", "a\n\r", "é\nü"] {
        let want: Vec<String> = t.lines().map(|p| p.to_string()).collect();
        assert_eq!(lines(t), want, "lines of {:?}", t);
    }
}

#[test]
fn parts_are_found_as_std_finds_them() {
    let texts = ["", "a", "ab", "abc", "cursor-bottom-12", "xxcursor-bottom", "aaa", "ééé", "u%3D12u%3D"];
    let parts = ["", "a", "b", "ab", "bc", "abc", "abcd", "aa", "cursor-bottom", "é", "u%3D"];
    for t in texts {
        for p in parts {
            assert_eq!(contains(t, p), t.contains(p), "{:?} in {:?}", p, t);
            assert_eq!(starts_with(t, p), t.starts_with(p), "{:?} starts {:?}", p, t);
            assert_eq!(ends_with(t, p), t.ends_with(p), "{:?} ends {:?}", p, t);
            if !p.is_empty() {
                assert_eq!(replace(t, p, "-"), t.replace(p, "-"), "replace {:?} in {:?}", p, t);
                assert_eq!(replace(t, p, ""), t.replace(p, ""), "remove {:?} in {:?}", p, t);
            }
        }
    }
    // an empty part occurs nowhere that could be replaced
    assert_eq!(replace("abc", "", "-"), "abc");
    assert_eq!(replace("u%3D1234", "u%3D", ""), "1234");
}
