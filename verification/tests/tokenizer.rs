use llvm_config::SpaceSeparatedStrings;

fn collect_tokens(src: &str) -> Vec<String> {
    let mut words = SpaceSeparatedStrings::new(src);
    let mut got: Vec<String> = Vec::new();
    while let Some(word) = words.next() {
        got.push(word);
    }
    got
}

#[test]
fn strings_are_split_correctly() {
    let src = "aarch64 aarch64asmparser aarch64codegen aarch64desc
        aarch64disassembler aarch64info aarch64utils aggressiveinstcombine
        all all-targets amdgpu amdgpuasmparser amdgpucodegen";
    let expected = vec![
        "aarch64",
        "aarch64asmparser",
        "aarch64codegen",
        "aarch64desc",
        "aarch64disassembler",
        "aarch64info",
        "aarch64utils",
        "aggressiveinstcombine",
        "all",
        "all-targets",
        "amdgpu",
        "amdgpuasmparser",
        "amdgpucodegen",
    ];

    let got: Vec<_> = collect_tokens(src);

    assert_eq!(got, expected);
}

#[test]
fn empty_input_yields_no_tokens() {
    assert_eq!(collect_tokens(""), Vec::<String>::new());
}

#[test]
fn whitespace_only_yields_no_tokens() {
    assert_eq!(collect_tokens(" \t\n  \r\n "), Vec::<String>::new());
    assert_eq!(collect_tokens("\n\n\n"), Vec::<String>::new());
}

#[test]
fn single_token_is_the_whole_input() {
    assert_eq!(collect_tokens("abc-def"), vec!["abc-def"]);
}

#[test]
fn irregular_indentation_splits_like_single_spaces() {
    assert_eq!(collect_tokens("a b\n   c  d"), vec!["a", "b", "c", "d"]);
    assert_eq!(collect_tokens("a b c d"), vec!["a", "b", "c", "d"]);
}

#[test]
fn exhaustion_is_permanent() {
    let mut words = SpaceSeparatedStrings::new("one two");
    assert_eq!(words.next().as_deref(), Some("one"));
    assert_eq!(words.next().as_deref(), Some("two"));
    assert_eq!(words.next(), None);
    assert_eq!(words.next(), None);
}

#[test]
fn trimming_does_not_change_the_tokens() {
    assert_eq!(collect_tokens("  x  y \n"), collect_tokens("x  y"));
    assert_eq!(collect_tokens("\t-L/usr/lib\t"), collect_tokens("-L/usr/lib"));
}

#[test]
fn joined_tokens_collapse_whitespace_runs() {
    let joined = collect_tokens(" a  b\t\nc ").join(" ");
    assert_eq!(joined, "a b c");
}

#[test]
fn tokens_are_nonempty_and_free_of_whitespace() {
    for tok in collect_tokens("  -I/x \u{00A0} -D Y\n\tz  ") {
        assert!(!tok.is_empty());
        assert!(!tok.chars().any(|c| c.is_whitespace()));
    }
}

#[test]
fn unicode_whitespace_separates_tokens() {
    assert_eq!(collect_tokens("a\u{00A0}b\u{2003}c"), vec!["a", "b", "c"]);
}
