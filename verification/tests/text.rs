use oatmeal::text::{find_from, from_chars, is_whitespace, lines, split, to_chars, trim};

fn strings(parts: &[&str]) -> Vec<String> {
    parts.iter().map(|part| part.to_string()).collect()
}

#[test]
fn to_chars_keeps_every_character() {
    assert_eq!(to_chars(""), Vec::<char>::new());
    assert_eq!(to_chars("a~\u{e9}\u{1f600}"), vec!['a', '~', '\u{e9}', '\u{1f600}']);
}

#[test]
fn from_chars_takes_the_range() {
    let v = to_chars("h\u{e9}llo");
    assert_eq!(from_chars(&v, 0, 5), "h\u{e9}llo");
    assert_eq!(from_chars(&v, 1, 3), "\u{e9}l");
    assert_eq!(from_chars(&v, 2, 2), "");
    assert_eq!(from_chars(&v, 5, 5), "");
}

#[test]
fn find_from_gives_first_place_or_length() {
    let v = to_chars("a b c");
    assert_eq!(find_from(&v, 0, ' '), 1);
    assert_eq!(find_from(&v, 1, ' '), 1);
    assert_eq!(find_from(&v, 2, ' '), 3);
    assert_eq!(find_from(&v, 4, ' '), 5);
    assert_eq!(find_from(&v, 5, ' '), 5);
    assert_eq!(find_from(&v, 0, 'z'), 5);
}

#[test]
fn split_gives_the_pieces_between_separators() {
    assert_eq!(split("/m llama 7b", ' '), strings(&["/m", "llama", "7b"]));
    assert_eq!(split("", ' '), strings(&[""]));
    assert_eq!(split(" ", ' '), strings(&["", ""]));
    assert_eq!(split("a  b", ' '), strings(&["a", "", "b"]));
    assert_eq!(split(" a ", ' '), strings(&["", "a", ""]));
    assert_eq!(split("abc", ' '), strings(&["abc"]));
}

#[test]
fn split_agrees_with_std() {
    for text in ["", " ", "  ", "a", "a b", " a  b ", "x\u{e9} y\u{1f600}  ", "\t a\n b"] {
        let expected: Vec<String> = text.split(' ').map(|piece| piece.to_string()).collect();
        assert_eq!(split(text, ' '), expected, "on {:?}", text);
    }
}

#[test]
fn lines_ends_a_line_at_each_line_feed() {
    assert_eq!(lines(""), strings(&[""]));
    assert_eq!(lines("\n"), strings(&[""]));
    assert_eq!(lines("\n\n"), strings(&["", ""]));
    assert_eq!(lines("a"), strings(&["a"]));
    assert_eq!(lines("a\n"), strings(&["a"]));
    assert_eq!(lines("a\nb"), strings(&["a", "b"]));
    assert_eq!(lines("a\n\nb\n"), strings(&["a", "", "b"]));
}

#[test]
fn lines_keeps_carriage_returns() {
    assert_eq!(lines("a\r\nb\r\n"), strings(&["a\r", "b\r"]));
    assert_eq!(lines("a\r"), strings(&["a\r"]));
    assert_eq!(lines("a\rb\n"), strings(&["a\rb"]));
    assert_eq!(lines("\r\n"), strings(&["\r"]));
}

#[test]
fn lines_agrees_with_std_where_no_carriage_return_ends_a_line() {
    let texts =
        ["\n", "\n\n", "a", "a\n", "a\nb", "one\ntwo\n\nfour\n", "\u{e9}t\u{e9}\n~", "a\rb"];
    for text in texts {
        let expected: Vec<String> = text.lines().map(|line| line.to_string()).collect();
        assert_eq!(lines(text), expected, "on {:?}", text);
    }
}

#[test]
fn lines_joined_by_line_feeds_are_the_text_but_for_its_last_line_feed() {
    for text in ["", "\n", "a", "a\n", "a\n\n", "a\r\nb\r\n", "\r", "x\ny\nz"] {
        let expected = text.strip_suffix('\n').unwrap_or(text);
        assert_eq!(lines(text).join("\n"), expected, "on {:?}", text);
    }
}

#[test]
fn trim_drops_white_space_at_both_ends_only() {
    assert_eq!(trim(""), "");
    assert_eq!(trim("   "), "");
    assert_eq!(trim("  /q  "), "/q");
    assert_eq!(trim("\t\n /m  llama \r\n"), "/m  llama");
    assert_eq!(trim("\u{a0}\u{3000}a b\u{2003}\u{85}"), "a b");
    assert_eq!(trim("a"), "a");
    assert_eq!(trim("\u{200b}a\u{200b}"), "\u{200b}a\u{200b}");
}

#[test]
fn trim_agrees_with_std() {
    let texts = [
        "",
        " ",
        "a",
        " a",
        "a ",
        " a b ",
        "\u{2028}x\u{2029}",
        "\u{1680}\u{202f}\u{205f}y",
        "\u{feff}z ",
    ];
    for text in texts {
        assert_eq!(trim(text), text.trim(), "on {:?}", text);
    }
}

#[test]
fn is_whitespace_agrees_with_std_on_every_character() {
    let mut code: u32 = 0;
    while code <= 0x10ffff {
        if let Some(c) = char::from_u32(code) {
            assert_eq!(is_whitespace(c), c.is_whitespace(), "on U+{:04X}", code);
        }
        code += 1;
    }
}
