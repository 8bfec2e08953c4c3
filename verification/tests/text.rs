use crypto_feeds::text::{
    chars_of, concat2, concat3, contains, has_prefix, split, strip_prefix, strip_suffix, text_eq,
};

#[test]
fn a_text_is_split_as_the_standard_library_splits_it() {
    for text in ["", "_", "a", "a_b", "a__b", "_a", "a_", "SPOT_BTC_USDT", "é_ß_字", "__"] {
        let expected: Vec<String> = text.split('_').map(|part| part.to_string()).collect();
        assert_eq!(split(text, '_'), expected, "{:?}", text);
    }
    assert_eq!(split("XBT/USD", '/'), vec!["XBT", "USD"]);
    assert_eq!(split("XBT/USD", '-'), vec!["XBT/USD"]);
}

#[test]
fn prefixes_and_suffixes_are_stripped_as_the_standard_library_strips_them() {
    let texts = ["", "USDT", "BTCUSDT", "order_book:12", "order_book:", "字USD", "USD字"];
    let affixes = ["", "USDT", "USD", "order_book:", "字", "T"];
    for text in texts {
        for affix in affixes {
            assert_eq!(
                strip_prefix(text, affix),
                text.strip_prefix(affix).map(|rest| rest.to_string())
            );
            assert_eq!(
                strip_suffix(text, affix),
                text.strip_suffix(affix).map(|rest| rest.to_string())
            );
            assert_eq!(has_prefix(text, affix), text.starts_with(affix));
            assert_eq!(contains(text, affix), text.contains(affix));
            assert_eq!(text_eq(text, affix), text == affix);
        }
    }
    assert!(contains("{\"success\":true}", "\"success\":true"));
    assert!(!contains("{\"success\":false}", "\"success\":true"));
    assert!(!contains("ab", "abc"));
}

#[test]
fn texts_are_joined_end_to_end() {
    assert_eq!(concat2("BTC", "USDT"), "BTCUSDT");
    assert_eq!(concat2("", ""), "");
    assert_eq!(concat3("BTC", "-", "USDT"), "BTC-USDT");
    assert_eq!(chars_of("aé字"), vec!['a', 'é', '字']);
    assert!(chars_of("").is_empty());
}
