use crate::generator::{GeneratedRustBlocks, RustBlocksText};
use crate::text::{string_literal, write_string_literal};
use vstd::prelude::*;

verus! {

/// The name of the module that holds the Rust side of an object.
pub open spec fn rust_module_ident(blocks: RustBlocksText) -> Seq<char> {
    "cxx_qt_"@ + blocks.cxx_mod_ident
}

/// The two functions that the C++ side calls to create the Rust object and to initialise
/// the C++ object from the default data.
pub open spec fn rust_module_functions(blocks: RustBlocksText) -> Seq<char> {
    "pub fn create_rs() -> std::boxed::Box<"@ + blocks.rust_struct_ident + "> {\n"@
        + "std::default::Default::default()\n"@ + "}\n"@ + "\n"@
        + "pub fn initialise_cpp(cpp: std::pin::Pin<&mut FFICppObj>) {\n"@
        + "let mut wrapper = CppObj::new(cpp);\n"@
        + "wrapper.grab_values_from_data(Data::default());\n"@ + "}\n"@
}

/// The whole generated Rust text: the bridge, marked as such with its namespace, and the
/// module of the Rust side, whose items are visible beside the bridge.
pub open spec fn rust_module_text(blocks: RustBlocksText) -> Seq<char> {
    "#[cxx::bridge(namespace = "@ + string_literal(blocks.namespace) + ")]\n"@ + blocks.cxx_mod
        + "\n"@ + "pub use self::"@ + rust_module_ident(blocks) + "::*;\n"@ + "mod "@
        + rust_module_ident(blocks) + " {\n"@ + "use super::"@ + blocks.cxx_mod_ident
        + "::*;\n"@ + "\n"@ + "pub type FFICppObj = super::"@ + blocks.cxx_mod_ident + "::"@
        + blocks.cpp_struct_ident + ";\n"@ + "type UniquePtr<T> = cxx::UniquePtr<T>;\n"@ + "\n"@
        + blocks.cxx_qt_mod_contents + "\n"@ + rust_module_functions(blocks) + "}\n"@
}

/// Writes the generated Rust text of an object.
pub fn write_rust(generated: &GeneratedRustBlocks) -> (r: String)
    ensures
        r@ == rust_module_text(generated@),
{
    let cxx_mod_ident = generated.cxx_mod_ident.as_str();
    let cxx_qt_mod_ident = String::from_str("cxx_qt_").concat(cxx_mod_ident);
    let functions = String::from_str("pub fn create_rs() -> std::boxed::Box<").concat(
        generated.rust_struct_ident.as_str(),
    ).concat("> {\n").concat("std::default::Default::default()\n").concat("}\n").concat(
        "\n",
    ).concat("pub fn initialise_cpp(cpp: std::pin::Pin<&mut FFICppObj>) {\n").concat(
        "let mut wrapper = CppObj::new(cpp);\n",
    ).concat("wrapper.grab_values_from_data(Data::default());\n").concat("}\n");
    String::from_str("#[cxx::bridge(namespace = ").concat(
        write_string_literal(generated.namespace.as_str()).as_str(),
    ).concat(")]\n").concat(generated.cxx_mod.as_str()).concat("\n").concat(
        "pub use self::",
    ).concat(cxx_qt_mod_ident.as_str()).concat("::*;\n").concat("mod ").concat(
        cxx_qt_mod_ident.as_str(),
    ).concat(" {\n").concat("use super::").concat(cxx_mod_ident).concat("::*;\n").concat(
        "\n",
    ).concat("pub type FFICppObj = super::").concat(cxx_mod_ident).concat("::").concat(
        generated.cpp_struct_ident.as_str(),
    ).concat(";\n").concat("type UniquePtr<T> = cxx::UniquePtr<T>;\n").concat("\n").concat(
        generated.cxx_qt_mod_contents.as_str(),
    ).concat("\n").concat(functions.as_str()).concat("}\n")
}

} // verus!
