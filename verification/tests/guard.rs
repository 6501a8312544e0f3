use dioxus_i18n::guard::is_tame;

fn nested_calls(levels: usize, innermost: &str) -> String {
    let mut text = String::new();
    for _ in 0..levels {
        text.push_str("{ F(");
    }
    text.push_str(innermost);
    for _ in 0..levels {
        text.push_str(") }");
    }
    text
}

#[test]
fn plain_text_is_tame() {
    assert!(is_tame(""));
    assert!(is_tame("hello = Hello, World!\n"));
    assert!(is_tame("hello = Hello, { $name }!\n"));
    assert!(is_tame("about = About { -brand } and { other }\n"));
    assert!(is_tame("when = { DATETIME($date, month: \"long\") }\n"));
}

#[test]
fn selection_on_a_variable_is_tame() {
    assert!(is_tame("emails = { $count ->\n    [one] One\n   *[other] { $count } more\n}\n"));
    assert!(is_tame("it = { -thing.gender ->\n    [female] her\n   *[other] its\n}\n"));
}

#[test]
fn literal_placeables_are_tame() {
    assert!(is_tame("brace = { \"{\" }\n"));
    assert!(is_tame("quote = { \"\\\"\" } and { \"\\\\\" }\n"));
    assert!(is_tame("seven = { 7 } and { -7.5 }\n"));
    assert!(is_tame("arrow = a -> b\n"));
}

#[test]
fn nested_placeable_of_a_variable_or_literal_is_tame() {
    assert!(is_tame("nested = { { $x } }\n"));
    assert!(is_tame("nested = {{ $x }}\n"));
    assert!(is_tame("nested = { { \"text\" } } and { { 5 } }\n-brand = Dioxus\nuse = { -brand }\n"));
}

#[test]
fn nested_placeable_of_a_reference_is_not_tame() {
    assert!(!is_tame("nested = { { other } }\nother = text\n"));
    assert!(!is_tame("nested = { { -brand } }\n-brand = Dioxus\n"));
    assert!(!is_tame("nested = {\n    {\n other } }\n"));
}

#[test]
fn nested_selection_needs_a_reference_or_many_placeables() {
    let nested = "nested = { { $n ->\n    [one] { $x }\n   *[other] none\n} }\n";
    assert!(is_tame(nested));
    assert!(!is_tame(&format!("{}-brand = Dioxus\nuse = {{ -brand }}\n", nested)));
    assert!(is_tame(&format!("{}crowded = {}\n", nested, "{ $x }".repeat(98))));
    assert!(!is_tame(&format!("{}crowded = {}\n", nested, "{ $x }".repeat(99))));
}

#[test]
fn selection_on_a_literal_without_placeables_is_tame() {
    assert!(is_tame("pick = { 1 ->\n    [one] One\n   *[other] Many\n}\nuse = { pick }\n"));
    assert!(is_tame("pick = { \"a\" ->\n    [a] A\n   *[b] B\n}\nuse = { pick }\n"));
}

#[test]
fn selection_on_a_literal_with_placeables_needs_a_reference_or_many_placeables() {
    let number = "pick = { 1 ->\n    [one] { $x }\n   *[other] Many\n}\n";
    let compact = "pick = {1->\n    [one] { $x }\n   *[other] Many\n}\n";
    let string = "pick = { \"}\" ->\n    [a] { $x }\n   *[b] B\n}\n";
    let escaped = "pick = {\"\\\" } \\\\\"\n->\n    [a] { $x }\n   *[b] B\n}\n";
    for text in [number, compact, string, escaped] {
        assert!(is_tame(text));
        assert!(!is_tame(&format!("{}use = {{ pick }}\n", text)));
        assert!(!is_tame(&format!("use = {{ -brand }}\n{}", text)));
        assert!(!is_tame(&format!("{}crowded = {}\n", text, "{ $x }".repeat(99))));
    }
}

#[test]
fn placeable_inside_a_selection_on_a_variable_is_tame() {
    let text = format!(
        "pick = {{ $n ->\n    [one] {{ $x }}\n   *[other] {{ other }}\n}}\nother = {}\n",
        "{ $x }".repeat(150)
    );
    assert!(is_tame(&text));
}

#[test]
fn comment_lines_are_passed_over() {
    assert!(is_tame("# {{ other }} { 1 ->\n#{ { x } }\nhello = Hi { other }\nother = x\n"));
    assert!(is_tame("## \"\\u\u{e9}\" -t(n: 1.00000000000000000000)\nhello = Hi\n"));
    assert!(is_tame(&format!("# {}\nhello = Hi\n", "{ F(".repeat(1000))));
}

#[test]
fn digits_in_text_are_tame() {
    assert!(is_tame("n = { 12345678901234567890 }\n"));
    assert!(is_tame("n = { 1.00000000000000000000 }\n"));
    assert!(is_tame("n = 00000000000000000000000000000000000000000\n"));
    assert!(is_tame("pi = 3.14159265358979323846264338327950288\n"));
    assert!(is_tame("n = { NUMBER(1.00000000000000000000) }\n"));
    assert!(is_tame("n = { $n ->\n    [1.00000000000000000000] one\n   *[other] more\n}\n"));
}

#[test]
fn long_fraction_selected_on_or_handed_to_a_term_is_not_tame() {
    assert!(!is_tame("n = { 1.00000000000000000000 ->\n   *[one] One\n}\n"));
    assert!(is_tame("n = { 1.0000000000000000000 ->\n   *[one] One\n}\n"));
    assert!(!is_tame("n = { -price(n: 1.00000000000000000000) }\n"));
    assert!(!is_tame("n = { -price(n: -0.00000000000000000001) }\n"));
    assert!(is_tame("n = { -price(n: 1.0000000000000000000) }\n"));
    assert!(is_tame("n = { -price(n: 12345678901234567890123) }\n"));
    assert!(!is_tame("n = { -price.a(a: 1, n: 1.00000000000000000000) }\n"));
}

#[test]
fn escape_cut_short_before_a_wide_character_is_not_tame() {
    assert!(!is_tame("a = { \"\\u\u{e9}\" }\n"));
    assert!(!is_tame("a = { \"\\u00e\u{e9}\" }\n"));
    assert!(!is_tame("a = { \"\\U0001f\u{1f600}\" }\n"));
    assert!(!is_tame("a = { -t(x: \"ok\", y: \"\\u\u{e9}\") }\n"));
    assert!(!is_tame("a = { $n ->\n   *[x] { \"\\u12\u{e9}\" }\n}\n"));
}

#[test]
fn other_escapes_are_tame() {
    assert!(is_tame("a = { \"\\u00e9\" } { \"\\U01F600\" }\n"));
    assert!(is_tame("a = { \"\\u00e9\u{e9}\" }\n"));
    assert!(is_tame("a = { \"\\uZ\" }\n"));
    assert!(is_tame("a = { \"\\u\" }\n"));
    assert!(is_tame("a = { \"\\\\u\u{e9}\" }\n"));
    assert!(is_tame("a = \\u\u{e9} and \"\\u\u{e9}\"\n"));
    assert!(is_tame("a = { \"\u{e9}\" }\n"));
}

#[test]
fn moderate_nesting_is_tame() {
    assert!(is_tame(&format!("deep = {}\n", nested_calls(7, "{ $x }"))));
    assert!(is_tame(&format!("deep = {}\n", nested_calls(8, "1"))));
    assert!(is_tame(
        "pick = { $a ->\n   *[x] { $b ->\n       *[y] { $c ->\n           *[z] { $d }\n        }\n    }\n}\n"
    ));
}

#[test]
fn deep_nesting_is_not_tame() {
    assert!(!is_tame(&format!("deep = {}\n", nested_calls(8, "{ $x }"))));
    assert!(!is_tame(&format!("deep = {}\n", nested_calls(100000, "1"))));
    assert!(!is_tame(&format!("deep = {{ {} }}\n", "F(".repeat(17))));
}

#[test]
fn nesting_ends_with_each_placeable() {
    let mut text = String::new();
    for i in 0..200 {
        text.push_str(&format!("m{} = He said \"{{ $x }}\" (twice) to {{ -t(a: 1) }}\n", i));
    }
    assert!(is_tame(&text));
    let line = "\"{ $a }\" (b) ".repeat(60);
    assert!(is_tame(&format!("m = {}\n", line)));
    let lines = "\n    { $a } ) \"".repeat(60);
    assert!(is_tame(&format!("m = \"{}\n", lines)));
}

#[test]
fn text_outside_of_entries_is_passed_over() {
    assert!(is_tame("{"));
    assert!(is_tame("{ { other } }"));
    assert!(is_tame("  a = { { other } }\n"));
    assert!(is_tame("# note\n   { \"\\u\u{e9}\" }\n"));
    assert!(!is_tame("# note\n   { \"\\u\u{e9}\" }\na = { \"\\u\u{e9}\" }\n"));
}

#[test]
fn text_cut_short_is_handled() {
    assert!(is_tame("a = {"));
    assert!(is_tame("a = { "));
    assert!(is_tame("a = { \""));
    assert!(is_tame("a = { \"\\"));
    assert!(is_tame("a = { \"\\u"));
    assert!(is_tame("a = { \"\\u00"));
    assert!(is_tame("a = { -"));
    assert!(is_tame("a = { 1."));
    assert!(is_tame("a = { 1 ->"));
    assert!(is_tame("a = { -t(n: 1."));
    assert!(is_tame("caf\u{e9} = { $x } \u{1f600}\n"));
    assert!(is_tame("a = caf\u{e9} { $x } \u{1f600}\n"));
}
