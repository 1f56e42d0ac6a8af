use vraw_vm::text::{chars_of, is_whitespace, parse_unsigned, push_decimal};
use vraw_vm::tokenizer::{
    find, parse_asm, parse_label_table, split_words, try_parse_asm, try_parse_label_table,
    AsmError, Assembly, LabelTable,
};

const END: &str = "/// END COMPILER GENERATED LABEL TABLE ///";

fn assembled(text: &str) -> Assembly {
    match try_parse_asm(text) {
        Ok(a) => a,
        Err(e) => panic!("does not assemble: {:?}", e),
    }
}

fn failure(text: &str) -> AsmError {
    match try_parse_asm(text) {
        Ok(_) => panic!("assembles"),
        Err(e) => e,
    }
}

fn strings(words: &[&str]) -> Vec<String> {
    words.iter().map(|w| w.to_string()).collect()
}

#[test]
fn white_space_is_what_the_standard_library_says() {
    for code in 0..=0x10FFFFu32 {
        if let Some(c) = char::from_u32(code) {
            assert_eq!(is_whitespace(c), c.is_whitespace(), "U+{:04X}", code);
        }
    }
}

#[test]
fn unsigned_literals_read_as_the_standard_library_reads_them() {
    let samples = [
        "", "0", "7", "42", "007", "255", "256", "+5", "+", "-5", "-0", "++5", "+-5", "5+", " 5",
        "5 ", "1_000", "0x10", "12a", "a12", "511", "512", "65535", "65536", "4294967295",
        "4294967296", "18446744073709551615", "18446744073709551616",
        "000000000000000000000000000000000000000000017", "99999999999999999999999999999",
        "\u{0661}", "1\u{0662}", "*rax", "rax", "+000", "1.5", "1e3",
    ];
    for s in samples {
        assert_eq!(parse_unsigned(s, usize::MAX), s.parse::<usize>().ok(), "usize {:?}", s);
        assert_eq!(
            parse_unsigned(s, 255),
            s.parse::<u8>().ok().map(|b| b as usize),
            "u8 {:?}",
            s
        );
    }
}

#[test]
fn unsigned_literal_limit_is_inclusive() {
    assert_eq!(parse_unsigned("100", 100), Some(100));
    assert_eq!(parse_unsigned("101", 100), None);
    assert_eq!(parse_unsigned("0", 0), Some(0));
    assert_eq!(parse_unsigned("1", 0), None);
    assert_eq!(parse_unsigned("000", 0), Some(0));
}

#[test]
fn decimal_notation() {
    for (n, text) in [(0usize, "0"), (9, "9"), (10, "10"), (65, "65"), (255, "255"), (511, "511")] {
        let mut out = String::from("x");
        push_decimal(&mut out, n);
        assert_eq!(out, format!("x{}", text));
    }
    let mut out = String::new();
    push_decimal(&mut out, usize::MAX);
    assert_eq!(out, usize::MAX.to_string());
    for n in 0..2000usize {
        let mut out = String::new();
        push_decimal(&mut out, n);
        assert_eq!(parse_unsigned(&out, usize::MAX), Some(n));
    }
}

#[test]
fn chars_of_keeps_every_character() {
    assert_eq!(chars_of(""), Vec::<char>::new());
    assert_eq!(chars_of("a\u{00e9}\u{4e16}\u{1F600}"), vec!['a', '\u{00e9}', '\u{4e16}', '\u{1F600}']);
}

#[test]
fn find_gives_the_first_occurrence() {
    let text = chars_of("abcabcabd");
    assert_eq!(find(&text, &chars_of("abc")), Some(0));
    assert_eq!(find(&text, &chars_of("abd")), Some(6));
    assert_eq!(find(&text, &chars_of("bca")), Some(1));
    assert_eq!(find(&text, &chars_of("abx")), None);
    assert_eq!(find(&text, &chars_of("")), Some(0));
    assert_eq!(find(&text, &chars_of("abcabcabd")), Some(0));
    assert_eq!(find(&text, &chars_of("abcabcabdx")), None);
    assert_eq!(find(&chars_of(""), &chars_of("")), Some(0));
    assert_eq!(find(&chars_of(""), &chars_of("a")), None);
    assert_eq!(find(&chars_of("aaab"), &chars_of("aab")), Some(1));
}

#[test]
fn split_words_is_split_whitespace() {
    let samples = [
        "",
        " ",
        "a",
        " a ",
        "a b",
        "\ta\n\nb\r\n c  ",
        "memset 0 65\nmov rax 0",
        "a\u{00a0}b\u{2003}c\u{3000}d\u{0085}e",
        "x\u{200b}y z",
        "\u{feff}a b",
    ];
    for s in samples {
        let text: Vec<char> = s.chars().collect();
        let expected: Vec<String> = s.split_whitespace().map(|w| w.to_string()).collect();
        assert_eq!(split_words(&text, 0, text.len()), expected, "{:?}", s);
    }
    let text: Vec<char> = "ab cd ef".chars().collect();
    assert_eq!(split_words(&text, 1, 7), strings(&["b", "cd", "e"]));
    assert_eq!(split_words(&text, 3, 3), Vec::<String>::new());
}

#[test]
fn label_table_pairs_names_with_indices() {
    let table = try_parse_label_table(&strings(&["start", "0", "loop", "12", "end", "+7"])).unwrap();
    assert_eq!(table.len(), 3);
    assert_eq!(table.get("start"), Some(0));
    assert_eq!(table.get("loop"), Some(12));
    assert_eq!(table.get("end"), Some(7));
    assert_eq!(table.get("other"), None);
}

#[test]
fn label_table_edge_cases() {
    let empty = try_parse_label_table(&Vec::new()).unwrap();
    assert_eq!(empty.len(), 0);
    let lone = try_parse_label_table(&strings(&["orphan"])).unwrap();
    assert_eq!(lone.len(), 0);
    let trailing = try_parse_label_table(&strings(&["a", "1", "orphan"])).unwrap();
    assert_eq!(trailing.len(), 1);
    assert_eq!(trailing.get("a"), Some(1));
    assert_eq!(trailing.get("orphan"), None);
    let replaced = try_parse_label_table(&strings(&["a", "1", "b", "2", "a", "3"])).unwrap();
    assert_eq!(replaced.len(), 2);
    assert_eq!(replaced.get("a"), Some(3));
    assert!(try_parse_label_table(&strings(&["a", "x"])).is_none());
    assert!(try_parse_label_table(&strings(&["a", "1", "b", "-2"])).is_none());
    assert!(try_parse_label_table(&strings(&["a", "b", "c", "1"])).is_none());
    assert!(try_parse_label_table(&strings(&["a", "99999999999999999999999999"])).is_none());
    let numeric_name = try_parse_label_table(&strings(&["5", "6"])).unwrap();
    assert_eq!(numeric_name.get("5"), Some(6));
}

#[test]
fn label_table_insert_and_get() {
    let mut table = LabelTable::new();
    assert_eq!(table.len(), 0);
    assert_eq!(table.get("a"), None);
    table.insert("a".to_string(), 4);
    table.insert("b".to_string(), 5);
    table.insert("a".to_string(), 6);
    assert_eq!(table.len(), 2);
    assert_eq!(table.get("a"), Some(6));
    assert_eq!(table.get("b"), Some(5));
}

#[test]
fn parse_asm_splits_table_and_tokens() {
    let text = format!("start 0 done 7\n{}\nmemset 0 65\n  mov rax 0\toutstr rax\n", END);
    let program = assembled(&text);
    assert_eq!(
        program.tokens,
        strings(&["memset", "0", "65", "mov", "rax", "0", "outstr", "rax"])
    );
    assert_eq!(program.label_table.len(), 2);
    assert_eq!(program.label_table.get("start"), Some(0));
    assert_eq!(program.label_table.get("done"), Some(7));
}

#[test]
fn parse_asm_with_nothing_around_the_marker() {
    let program = assembled(END);
    assert!(program.tokens.is_empty());
    assert_eq!(program.label_table.len(), 0);
    let glued = assembled(&format!("a 1{}dmp", END));
    assert_eq!(glued.tokens, strings(&["dmp"]));
    assert_eq!(glued.label_table.get("a"), Some(1));
}

#[test]
fn parse_asm_splits_at_the_first_marker() {
    let text = format!("a 1 {} x {} y", END, END);
    let program = assembled(&text);
    assert_eq!(
        program.tokens,
        strings(&["x", "///", "END", "COMPILER", "GENERATED", "LABEL", "TABLE", "///", "y"])
    );
    assert_eq!(program.label_table.len(), 1);
}

#[test]
fn parse_asm_without_marker_fails() {
    assert_eq!(failure(""), AsmError::MissingTableEnd);
    assert_eq!(failure("memset 0 65"), AsmError::MissingTableEnd);
    assert_eq!(
        failure("/// END COMPILER GENERATED LABEL TABLE //"),
        AsmError::MissingTableEnd
    );
    assert_eq!(
        failure("/// END  COMPILER GENERATED LABEL TABLE ///"),
        AsmError::MissingTableEnd
    );
}

#[test]
fn parse_asm_with_bad_label_index_fails() {
    assert_eq!(failure(&format!("a b {}", END)), AsmError::BadLabelIndex);
    assert_eq!(failure(&format!("a 1 b -1 {} dmp", END)), AsmError::BadLabelIndex);
    assert_eq!(failure(&format!("a 1.0 {} dmp", END)), AsmError::BadLabelIndex);
}

#[test]
fn parse_asm_keeps_unicode_tokens() {
    let text = format!("caf\u{00e9} 3 {} out\u{00a0}str \u{4e16}\u{754c}", END);
    let program = assembled(&text);
    assert_eq!(program.tokens, strings(&["out", "str", "\u{4e16}\u{754c}"]));
    assert_eq!(program.label_table.get("caf\u{00e9}"), Some(3));
}

#[test]
fn parse_asm_of_a_program_is_what_try_parse_asm_finds() {
    let text = format!("start 0 done 7\n{}\nmemset 0 65 mov rax 0", END);
    let program = parse_asm(&text);
    assert_eq!(program.tokens, strings(&["memset", "0", "65", "mov", "rax", "0"]));
    assert_eq!(program.label_table.len(), 2);
    assert_eq!(program.label_table.get("done"), Some(7));
    let same = assembled(&text);
    assert_eq!(program.tokens, same.tokens);
    assert_eq!(program.label_table.get("start"), same.label_table.get("start"));
    let bare = parse_asm(END);
    assert!(bare.tokens.is_empty());
    assert_eq!(bare.label_table.len(), 0);
}

#[test]
fn parse_label_table_of_a_table() {
    let table = parse_label_table(&strings(&["a", "1", "b", "2", "a", "3", "orphan"]));
    assert_eq!(table.len(), 2);
    assert_eq!(table.get("a"), Some(3));
    assert_eq!(table.get("b"), Some(2));
    assert_eq!(table.get("orphan"), None);
    assert_eq!(parse_label_table(&Vec::new()).len(), 0);
}
