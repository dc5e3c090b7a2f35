use cow::chat::{mention_channel, mention_user, mono};
use cow::number::{parse_i32, parse_u32};
use cow::text::{chars_of, join, split, string_of};

fn chars(text: &str) -> Vec<char> {
    text.chars().collect()
}

fn strings(texts: &[&str]) -> Vec<String> {
    texts.iter().map(|t| t.to_string()).collect()
}

#[test]
fn characters_of_a_text() {
    assert_eq!(chars_of(""), Vec::<char>::new());
    assert_eq!(chars_of("abc"), vec!['a', 'b', 'c']);
    assert_eq!(chars_of("a🐮é"), vec!['a', '🐮', 'é']);
    assert_eq!(string_of(&chars("hello"), 1, 4), "ell");
    assert_eq!(string_of(&chars("hello"), 0, 5), "hello");
    assert_eq!(string_of(&chars("hello"), 2, 2), "");
    assert_eq!(string_of(&chars("a🐮é"), 1, 3), "🐮é");
}

#[test]
fn joining() {
    assert_eq!(join(&strings(&[]), ", "), "");
    assert_eq!(join(&strings(&["a"]), ", "), "a");
    assert_eq!(join(&strings(&["a", "b", "c"]), ", "), "a, b, c");
    assert_eq!(join(&strings(&["", ""]), "-"), "-");
    assert_eq!(join(&strings(&["a", "b"]), ""), "ab");
}

#[test]
fn splitting_is_as_the_standard_library_splits() {
    for text in ["", "a", "a b", " a", "a ", "  ", "a  b", "one two three", " x  y ", "🐮 é 🐮"] {
        let want: Vec<String> = text.split(' ').map(|piece| piece.to_string()).collect();
        assert_eq!(split(&chars(text), ' '), want, "splitting {:?}", text);
    }
    assert_eq!(split(&chars("a,b,,c"), ','), strings(&["a", "b", "", "c"]));
    assert_eq!(split(&chars(""), ','), strings(&[""]));
    assert_eq!(split(&chars(","), ','), strings(&["", ""]));
}

#[test]
fn numbers_are_read_as_the_standard_library_reads_them() {
    let texts = [
        "", "0", "7", "007", "42", "+42", "-42", "+", "-", "+-1", "--1", "1 ", " 1", "1a", "a1", "١", "4294967295",
        "4294967296", "+4294967295", "2147483647", "2147483648", "-2147483648", "-2147483649", "-0", "+0",
        "99999999999999999999999", "-99999999999999999999999", "00000000000000000000001", "1_000", "0x10",
    ];
    for text in texts {
        assert_eq!(parse_u32(&chars(text)), text.parse::<u32>().ok(), "reading {:?} as u32", text);
        assert_eq!(parse_i32(&chars(text)), text.parse::<i32>().ok(), "reading {:?} as i32", text);
    }
    assert_eq!(parse_u32(&chars("2022")), Some(2022));
    assert_eq!(parse_i32(&chars("-17")), Some(-17));
    assert_eq!(parse_u32(&chars("-0")), None);
    assert_eq!(parse_i32(&chars("-0")), Some(0));
}

#[test]
fn mentions_and_code() {
    assert_eq!(mention_user(42), "<@42>");
    assert_eq!(mention_channel(2002), "<#2002>");
    assert_eq!(mono("5"), "`5`");
    assert_eq!(mono(""), "``");
}
