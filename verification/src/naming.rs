use convert_case::{Case, Casing};
use vstd::prelude::*;
use vstd::utf8::is_ascii_chars;

verus! {

/// The Pascal-case form that `convert_case` gives to a text: its words, each with a capital
/// first letter, one directly behind the other.
pub uninterp spec fn pascal_case(ident: Seq<char>) -> Seq<char>;

/// The snake-case form that `convert_case` gives to a text: its words in lower case, with an
/// underscore between each two.
pub uninterp spec fn snake_case(ident: Seq<char>) -> Seq<char>;

/// Calls `convert_case::Casing::to_case` on a string slice with `Case::Pascal`. The result
/// depends on the text alone and is named `pascal_case`. The conversion cuts the text at
/// positions that it counts in characters and applies in bytes, so only ASCII text is
/// handed to it.
#[verifier::external_body]
pub(crate) fn to_pascal_case(ident: &str) -> (r: String)
    requires
        is_ascii_chars(ident@),
    ensures
        r@ == pascal_case(ident@),
{
    ident.to_case(Case::Pascal)
}

/// Calls `convert_case::Casing::to_case` on a string slice with `Case::Snake`. The result
/// depends on the text alone and is named `snake_case`. Only ASCII text is handed to it,
/// for the same reason as in `to_pascal_case`.
#[verifier::external_body]
pub(crate) fn to_snake_case(ident: &str) -> (r: String)
    requires
        is_ascii_chars(ident@),
    ensures
        r@ == snake_case(ident@),
{
    ident.to_case(Case::Snake)
}

/// The namespace that holds the internal functions of an object: `cxx_qt_` and the object's
/// name in snake case, inside the object's own namespace where it has one.
pub open spec fn namespace_internals_text(namespace: Seq<char>, ident_snake: Seq<char>) -> Seq<
    char,
> {
    if namespace.len() == 0 {
        "cxx_qt_"@ + ident_snake
    } else {
        namespace + "::"@ + "cxx_qt_"@ + ident_snake
    }
}

/// Builds the name of the namespace for internal use, which both generated sides refer
/// to. A name of the object that is not ASCII is refused.
pub fn namespace_internals(namespace: &str, ident: &str) -> (r: Option<String>)
    ensures
        match r {
            Some(name) => is_ascii_chars(ident@) && name@ == namespace_internals_text(
                namespace@,
                snake_case(ident@),
            ),
            None => !is_ascii_chars(ident@),
        },
{
    if ident.is_ascii() {
        Some(write_namespace_internals(namespace, to_snake_case(ident).as_str()))
    } else {
        None
    }
}

/// Builds the name of the namespace for internal use from the name of the object in snake
/// case.
pub fn write_namespace_internals(namespace: &str, ident_snake: &str) -> (r: String)
    ensures
        r@ == namespace_internals_text(namespace@, ident_snake@),
{
    if namespace.is_empty() {
        let mut out = String::from_str("cxx_qt_");
        out.append(ident_snake);
        out
    } else {
        let mut out = String::from_str(namespace);
        out.append("::");
        out.append("cxx_qt_");
        out.append(ident_snake);
        out
    }
}

} // verus!
