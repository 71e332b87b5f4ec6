use cxx_qt_gen::naming::{namespace_internals, write_namespace_internals};
use cxx_qt_gen::text::{concat_strings, join_strings, push_string, write_string_literal};

fn strings(items: &[&str]) -> Vec<String> {
    items.iter().map(|s| s.to_string()).collect()
}

#[test]
fn join_puts_the_separator_between_neighbours() {
    assert_eq!(join_strings(&strings(&[]), ", "), "");
    assert_eq!(join_strings(&strings(&["a"]), ", "), "a");
    assert_eq!(join_strings(&strings(&["a", "b", "c"]), ", "), "a, b, c");
    assert_eq!(join_strings(&strings(&["", ""]), "::"), "::");
}

#[test]
fn concat_puts_nothing_between_neighbours() {
    assert_eq!(concat_strings(&strings(&[])), "");
    assert_eq!(concat_strings(&strings(&["a", "", "bc"])), "abc");
}

#[test]
fn lists_grow_at_the_end() {
    let mut list = strings(&["a"]);
    push_string(&mut list, "b".to_owned());
    push_string(&mut list, "".to_owned());
    assert_eq!(list, strings(&["a", "b", ""]));
}

#[test]
fn string_literal_escapes_what_would_end_it() {
    assert_eq!(write_string_literal(""), "\"\"");
    assert_eq!(write_string_literal("getNumber"), "\"getNumber\"");
    assert_eq!(write_string_literal("a\"b"), "\"a\\\"b\"");
    assert_eq!(write_string_literal("a\\b"), "\"a\\\\b\"");
    assert_eq!(write_string_literal("a\nb\tc\rd\0"), "\"a\\nb\\tc\\rd\\0\"");
    assert_eq!(write_string_literal("größe"), "\"größe\"");
}

#[test]
fn string_literal_denotes_its_text() {
    for text in ["plain", "with \"quotes\"", "back\\slash", "line\nbreak", "tab\t", "é ü"] {
        let literal = write_string_literal(text);
        let parsed: syn::LitStr = syn::parse_str(&literal).unwrap();
        assert_eq!(parsed.value(), text);
    }
}

#[test]
fn internal_namespace_holds_the_name_in_snake_case() {
    assert_eq!(namespace_internals("", "MyObject").unwrap(), "cxx_qt_my_object");
    assert_eq!(
        namespace_internals("cxx_qt::my_object", "MyObject").unwrap(),
        "cxx_qt::my_object::cxx_qt_my_object"
    );
    assert_eq!(namespace_internals("ns", "IOStream2").unwrap(), "ns::cxx_qt_io_stream_2");
    assert_eq!(namespace_internals("ns", "Größe"), None);
}

#[test]
fn internal_namespace_is_built_from_the_snake_name_that_is_given() {
    assert_eq!(write_namespace_internals("", "given"), "cxx_qt_given");
    assert_eq!(write_namespace_internals("a::b", "given"), "a::b::cxx_qt_given");
    assert_eq!(write_namespace_internals("a", ""), "a::cxx_qt_");
}
