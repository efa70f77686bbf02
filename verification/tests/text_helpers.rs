use automod_bot::text::{count_occurrences, decimal_i64, decimal_u64, is_whitespace, remove_occurrences, trim, trim_flagged};

#[test]
fn decimal_rendering_matches_to_string() {
    for n in [0u64, 7, 10, 42, 1234567890, u64::MAX] {
        assert_eq!(decimal_u64(n), n.to_string());
    }
    for n in [0i64, -1, 5, -42, i64::MAX, i64::MIN] {
        assert_eq!(decimal_i64(n), n.to_string());
    }
}

#[test]
fn occurrences_are_counted_without_overlap() {
    assert_eq!(count_occurrences("<@1><@2>", "<@"), 2);
    assert_eq!(count_occurrences("aaaa", "aa"), 2);
    assert_eq!(count_occurrences("aaa", "aa"), 1);
    assert_eq!(count_occurrences("", "<@"), 0);
    assert_eq!(count_occurrences("x<@", "<@"), 1);
    assert_eq!(count_occurrences("héllo <@", "<@"), 1);
}

#[test]
fn occurrences_are_removed_like_replace() {
    for (text, pat) in [
        ("```json\n{}\n```", "```json"),
        ("a```b```c", "```"),
        ("``````", "```"),
        ("````", "```"),
        ("no fences", "```"),
        ("ééé", "é"),
    ] {
        assert_eq!(remove_occurrences(text, pat), text.replace(pat, ""));
    }
}

#[test]
fn trimming_matches_str_trim() {
    for text in ["  x  ", "\t\nhello world\r\n", "", "   ", "\u{3000}wide\u{a0}", "inner  space"] {
        assert_eq!(trim(text), text.trim());
    }
}

#[test]
fn trimming_by_flags_drops_flagged_ends() {
    assert_eq!(trim_flagged("..ab.", &vec![true, true, false, false, true]), "ab");
    assert_eq!(trim_flagged("a.b", &vec![false, true, false]), "a.b");
    assert_eq!(trim_flagged("xyz", &vec![true, true, true]), "");
    assert_eq!(trim_flagged("", &vec![]), "");
}

#[test]
fn white_space_matches_char_is_whitespace() {
    for u in 0u32..=0x10FFFF {
        if let Some(c) = char::from_u32(u) {
            assert_eq!(is_whitespace(c), c.is_whitespace(), "U+{:04X}", u);
        }
    }
}

#[test]
fn empty_patterns_behave_like_std() {
    for text in ["", "abc", "héllo"] {
        assert_eq!(count_occurrences(text, ""), text.matches("").count());
        assert_eq!(remove_occurrences(text, ""), text.replace("", ""));
    }
}
