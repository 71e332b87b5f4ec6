use cxx_qt_gen::descriptor::{
    check_accessors, check_invokables, check_parameters, check_properties, cpp_name_of,
    rust_name_of, CppRustIdent, Field, Invokable, ItemStruct, ModuleHead, ObjectDescriptor,
    Parameter, ParameterType, Property, Violation,
};
use cxx_qt_gen::generator::{
    append_header_pairs, append_source_pairs, append_strings, push_pair, CppFragmentPair,
};
use cxx_qt_gen::types::QtTypes;

fn names(cpp: &str, rust: &str) -> CppRustIdent {
    CppRustIdent { cpp_ident: cpp.to_owned(), rust_ident: rust.to_owned() }
}

fn number() -> Property {
    Property {
        ident: names("myNumber", "my_number"),
        type_ident: ParameterType { qt_type: QtTypes::I32, is_mut: false, is_ref: false },
        getter: Some(names("getMyNumber", "my_number")),
        setter: Some(names("setMyNumber", "set_my_number")),
        notify: Some(names("myNumberChanged", "my_number_changed")),
    }
}

fn reference(path: &[&str]) -> Parameter {
    Parameter {
        ident: "cpp".to_owned(),
        type_ident: ParameterType {
            qt_type: QtTypes::CppObj {
                cpp_type_idents_string: "MyObject".to_owned(),
                rust_type_idents: path.iter().map(|s| s.to_string()).collect(),
            },
            is_mut: true,
            is_ref: true,
        },
    }
}

fn count() -> Parameter {
    Parameter {
        ident: "count".to_owned(),
        type_ident: ParameterType { qt_type: QtTypes::U8, is_mut: false, is_ref: false },
    }
}

fn invokable(parameters: Vec<Parameter>) -> Invokable {
    Invokable {
        ident: names("run", "run"),
        ident_wrapper: None,
        mutable: false,
        parameters,
        return_type: None,
        original_method: String::new(),
    }
}

fn bare(ident: &str) -> ItemStruct {
    ItemStruct {
        attrs: vec![],
        vis: String::new(),
        ident: ident.to_owned(),
        generics: String::new(),
        fields: Vec::<Field>::new(),
    }
}

fn object(ident: &str, properties: Vec<Property>, invokables: Vec<Invokable>) -> ObjectDescriptor {
    ObjectDescriptor {
        ident: ident.to_owned(),
        namespace: String::new(),
        properties,
        invokables,
        signals: vec![],
        signal_ident: "Signal".to_owned(),
        handle_updates_impl: None,
        original_mod: ModuleHead { attrs: vec![], vis: String::new(), ident: "ffi".to_owned() },
        original_signal_enum: None,
        original_data_struct: bare("Data"),
        original_rust_struct: bare(ident),
        original_passthrough_decls: vec![],
        cxx_items: vec![],
        methods: vec![],
    }
}

#[test]
fn property_that_keeps_the_rules_has_no_violation() {
    assert_eq!(number().check(), None);
    assert_eq!(check_properties(&[]), None);
    assert_eq!(check_properties(&[number(), number()]), None);
    let mut odd = number();
    odd.getter = Some(names("readIt", "ReadIt"));
    odd.setter = Some(names("", ""));
    odd.ident = names("myNumber", "größe");
    assert_eq!(odd.check(), None);
}

#[test]
fn property_rules_are_held_in_order() {
    let mut unnamed = number();
    unnamed.notify = None;
    unnamed.ident = names("größe", "größe");
    assert_eq!(unnamed.check(), Some(Violation::MissingAccessor));
    let mut no_getter = number();
    no_getter.getter = None;
    assert_eq!(no_getter.check(), Some(Violation::MissingAccessor));
    let mut no_setter = number();
    no_setter.setter = None;
    assert_eq!(no_setter.check(), Some(Violation::MissingAccessor));

    let mut foreign = number();
    foreign.ident = names("größe", "my_number");
    assert_eq!(foreign.check(), Some(Violation::NonAsciiIdentifier));
}

#[test]
fn accessors_are_counted() {
    let mut no_notify = number();
    no_notify.notify = None;
    assert!(number().has_accessors());
    assert!(!no_notify.has_accessors());
    assert!(no_notify.has_getter_and_setter());
    let mut no_getter = number();
    no_getter.getter = None;
    assert!(!no_getter.has_accessors());
    assert!(!no_getter.has_getter_and_setter());

    assert!(!check_accessors(&[]));
    assert!(!check_accessors(&[number(), no_notify]));
    assert!(check_accessors(&[number(), no_getter]));
}

#[test]
fn missing_accessor_has_an_empty_name() {
    assert_eq!(cpp_name_of(&Some(names("getIt", "it"))), "getIt");
    assert_eq!(rust_name_of(&Some(names("getIt", "it"))), "it");
    assert_eq!(cpp_name_of(&None), "");
    assert_eq!(rust_name_of(&None), "");
}

#[test]
fn first_property_with_a_violation_decides() {
    let mut foreign = number();
    foreign.ident = names("größe", "x");
    let mut unnamed = number();
    unnamed.getter = None;
    assert_eq!(
        check_properties(&[number(), foreign, unnamed]),
        Some(Violation::NonAsciiIdentifier)
    );
    let mut foreign = number();
    foreign.ident = names("größe", "x");
    let mut unnamed = number();
    unnamed.getter = None;
    assert_eq!(check_properties(&[unnamed, foreign, number()]), Some(Violation::MissingAccessor));
}

#[test]
fn object_reference_needs_a_path() {
    assert_eq!(count().check(), None);
    assert_eq!(reference(&["MyObjectQt"]).check(), None);
    assert_eq!(reference(&[]).check(), Some(Violation::EmptyTypePath));
    assert_eq!(check_parameters(&[]), None);
    assert_eq!(check_parameters(&[count(), reference(&["a", "b"])]), None);
    assert_eq!(check_parameters(&[count(), reference(&[])]), Some(Violation::EmptyTypePath));
    assert_eq!(check_invokables(&[]), None);
    assert_eq!(check_invokables(&[invokable(vec![]), invokable(vec![count()])]), None);
    assert_eq!(
        check_invokables(&[invokable(vec![]), invokable(vec![reference(&[]), count()])]),
        Some(Violation::EmptyTypePath)
    );
}

#[test]
fn owning_handle_of_an_object_reference_is_let_through() {
    let wrapped = Parameter {
        ident: "held".to_owned(),
        type_ident: ParameterType {
            qt_type: QtTypes::UniquePtr {
                inner: Box::new(QtTypes::CppObj {
                    cpp_type_idents_string: "Other".to_owned(),
                    rust_type_idents: vec![],
                }),
            },
            is_mut: false,
            is_ref: false,
        },
    };
    assert_eq!(wrapped.check(), None);
}

#[test]
fn object_rules_are_held_in_order() {
    let fine = object("MyObject", vec![number()], vec![invokable(vec![count()])]);
    assert_eq!(fine.check_cpp(), None);
    assert_eq!(fine.check_rust(), None);

    let mut unnamed = number();
    unnamed.setter = None;
    let foreign = object("Größe", vec![unnamed], vec![invokable(vec![reference(&[])])]);
    assert_eq!(foreign.check_cpp(), Some(Violation::NonAsciiIdentifier));
    assert_eq!(foreign.check_rust(), Some(Violation::NonAsciiIdentifier));

    let mut unnamed = number();
    unnamed.setter = None;
    let incomplete = object("MyObject", vec![unnamed], vec![invokable(vec![reference(&[])])]);
    assert_eq!(incomplete.check_cpp(), Some(Violation::MissingAccessor));
    assert_eq!(incomplete.check_rust(), Some(Violation::MissingAccessor));

    let no_path = object("MyObject", vec![number()], vec![invokable(vec![reference(&[])])]);
    assert_eq!(no_path.check_cpp(), None);
    assert_eq!(no_path.check_rust(), Some(Violation::EmptyTypePath));
}

#[test]
fn each_side_asks_for_what_it_uses() {
    let mut no_notify = number();
    no_notify.notify = None;
    let silent = object("MyObject", vec![no_notify], vec![]);
    assert_eq!(silent.check_cpp(), Some(Violation::MissingAccessor));
    assert_eq!(silent.check_rust(), None);

    let mut foreign = number();
    foreign.ident = names("größe", "größe");
    let named = object("MyObject", vec![foreign], vec![]);
    assert_eq!(named.check_cpp(), Some(Violation::NonAsciiIdentifier));
    assert_eq!(named.check_rust(), None);
}

#[test]
fn pieces_are_put_at_the_end() {
    let mut list: Vec<CppFragmentPair> = Vec::new();
    push_pair(&mut list, "h".to_owned(), "s".to_owned());
    append_header_pairs(&mut list, &vec!["a".to_owned(), "b".to_owned()]);
    append_source_pairs(&mut list, &vec!["c".to_owned()]);
    append_header_pairs(&mut list, &vec![]);
    let texts: Vec<(&str, &str)> =
        list.iter().map(|p| (p.header.as_str(), p.source.as_str())).collect();
    assert_eq!(texts, vec![("h", "s"), ("a", ""), ("b", ""), ("", "c")]);

    let mut strings = vec!["x".to_owned()];
    append_strings(&mut strings, &vec!["y".to_owned(), "z".to_owned()]);
    append_strings(&mut strings, &vec![]);
    assert_eq!(strings, vec!["x", "y", "z"]);
}

