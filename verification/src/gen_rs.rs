use crate::descriptor::{
    accessors_missing, check_accessors, check_parameters, cpp_name, cpp_name_of,
    invokables_violation, parameters_violation, rust_name, rust_name_of, Field,
    GenerationError, Invokable, ItemStruct, ObjectDescriptor, Parameter, ParameterType,
    Property, Signal, Violation,
};
use crate::naming::{
    namespace_internals_text, snake_case, to_snake_case, write_namespace_internals,
};
use crate::generator::{GeneratedRustBlocks, RustBlocksText};
use crate::syntax::{checked_text, module_syntax_error};
use crate::writer_rs::{rust_module_text, write_rust};
use crate::text::{
    concat, concat_strings, join, join_strings, push_string, string_literal,
    write_string_literal,
};
use crate::types::QtTypes;
use vstd::prelude::*;
use vstd::utf8::is_ascii_chars;

verus! {

/// The mark of a reference.
pub open spec fn reference_text(is_ref: bool) -> Seq<char> {
    if is_ref {
        "&"@
    } else {
        ""@
    }
}

/// The mark of mutability.
pub open spec fn mutable_text(is_mut: bool) -> Seq<char> {
    if is_mut {
        "mut "@
    } else {
        ""@
    }
}

/// The given texts, each closed by a line break.
pub open spec fn lines(items: Seq<Seq<char>>) -> Seq<char> {
    concat(Seq::new(items.len(), |i: int| items[i] + "\n"@))
}

/// A visibility with the blank behind it; nothing for no visibility.
pub open spec fn visibility_text(vis: Seq<char>) -> Seq<char> {
    if vis.len() == 0 {
        ""@
    } else {
        vis + " "@
    }
}

/// The name of the C++ class inside the bridge.
pub open spec fn cpp_class_ident(obj: ObjectDescriptor) -> Seq<char> {
    obj.ident@ + "Qt"@
}

/// A parameter of an invokable inside the bridge. Another object comes pinned; any other
/// type keeps the reference and the mutability that it was written with.
pub open spec fn bridge_parameter(parameter: Parameter) -> Seq<char> {
    let t = parameter.type_ident.qt_type;
    if t is CppObj {
        parameter.ident@ + ": Pin<&mut "@ + t.boundary_name() + ">"@
    } else {
        parameter.ident@ + ": "@ + reference_text(parameter.type_ident.is_ref) + mutable_text(
            parameter.type_ident.is_mut,
        ) + t.boundary_name()
    }
}

/// The parameters of an invokable inside the bridge, each behind a comma.
pub open spec fn bridge_parameters(parameters: Seq<Parameter>) -> Seq<char> {
    concat(Seq::new(parameters.len(), |i: int| ", "@ + bridge_parameter(parameters[i])))
}

/// The return type of an invokable inside the bridge, behind its arrow: an opaque value
/// comes behind a `UniquePtr`.
pub open spec fn bridge_return(return_type: Option<ParameterType>) -> Seq<char> {
    match return_type {
        None => ""@,
        Some(t) => " -> "@ + (if t.qt_type.spec_is_opaque() {
            "UniquePtr<"@ + t.qt_type.boundary_name() + ">"@
        } else if t.is_ref {
            "&"@ + t.qt_type.boundary_name()
        } else {
            t.qt_type.boundary_name()
        }),
    }
}

/// The names of the Rust method that the bridge declares for an invokable: those of its
/// wrapper, where it has one.
pub open spec fn bridge_target(invokable: Invokable) -> (Seq<char>, Seq<char>) {
    match invokable.ident_wrapper {
        Some(wrapper) => (wrapper.rust_ident@, wrapper.cpp_ident@),
        None => (invokable.ident.rust_ident@, invokable.ident.cpp_ident@),
    }
}

/// The declaration of an invokable inside the bridge.
pub open spec fn bridge_invokable(rust_class_name: Seq<char>, invokable: Invokable) -> Seq<char> {
    "#[cxx_name = "@ + string_literal(bridge_target(invokable).1) + "]\n"@ + "fn "@
        + bridge_target(invokable).0 + "(self: &"@ + mutable_text(invokable.mutable)
        + rust_class_name + bridge_parameters(invokable.parameters@) + ")"@ + bridge_return(
        invokable.return_type,
    ) + ";\n"@
}

/// The type of a property inside the bridge.
pub open spec fn bridge_property_type(property: Property) -> Seq<char> {
    reference_text(property.type_ident.qt_type.spec_is_ref())
        + property.type_ident.qt_type.boundary_name()
}

/// The declarations of the getter and of the setter of a property inside the bridge. Each
/// stands under the C++ name and the Rust name that the description gives it, which are the
/// names that the C++ class defines and that the methods of the Rust side call.
pub open spec fn bridge_property(class_cpp: Seq<char>, property: Property) -> Seq<char> {
    "#[rust_name = "@ + string_literal(rust_name(property.getter)) + "]\n"@ + "fn "@ + cpp_name(
        property.getter,
    ) + "(self: &"@ + class_cpp + ") -> "@ + bridge_property_type(property) + ";\n"@
        + "#[rust_name = "@ + string_literal(rust_name(property.setter)) + "]\n"@ + "fn "@
        + cpp_name(property.setter) + "(self: Pin<&mut "@ + class_cpp + ">, value: "@
        + bridge_property_type(property) + ");\n"@
}

/// The type of a parameter of a signal that is emitted at once, inside the bridge: a
/// reference where the type is one, else the value.
pub open spec fn bridge_immediate_type(t: QtTypes) -> Seq<char> {
    reference_text(t.spec_is_ref()) + t.boundary_name()
}

/// The type of a parameter of a signal that is emitted through the event queue, inside the
/// bridge: an opaque value comes behind a `UniquePtr`, any other as the value.
pub open spec fn bridge_queued_type(t: QtTypes) -> Seq<char> {
    if t.spec_is_opaque() {
        "UniquePtr<"@ + t.boundary_name() + ">"@
    } else {
        t.boundary_name()
    }
}

/// The parameters of a signal that is emitted at once, each behind a comma.
pub open spec fn bridge_immediate_parameters(parameters: Seq<Parameter>) -> Seq<char> {
    concat(
        Seq::new(
            parameters.len(),
            |i: int|
                ", "@ + parameters[i].ident@ + ": "@ + bridge_immediate_type(
                    parameters[i].type_ident.qt_type,
                ),
        ),
    )
}

/// The parameters of a signal that is emitted through the event queue, each behind a comma.
pub open spec fn bridge_queued_parameters(parameters: Seq<Parameter>) -> Seq<char> {
    concat(
        Seq::new(
            parameters.len(),
            |i: int|
                ", "@ + parameters[i].ident@ + ": "@ + bridge_queued_type(
                    parameters[i].type_ident.qt_type,
                ),
        ),
    )
}

/// The two declarations of a signal inside the bridge: the signal itself, which is emitted
/// at once, and the method that emits it through the event queue.
pub open spec fn bridge_signal(class_cpp: Seq<char>, signal: Signal) -> Seq<char> {
    "#[rust_name = "@ + string_literal(signal.signal_ident.rust_ident@) + "]\n"@ + "fn "@
        + signal.signal_ident.cpp_ident@ + "(self: Pin<&mut "@ + class_cpp + ">"@
        + bridge_immediate_parameters(signal.parameters@) + ");\n"@ + "#[rust_name = "@
        + string_literal(signal.emit_ident.rust_ident@) + "]\n"@ + "fn "@
        + signal.emit_ident.cpp_ident@ + "(self: Pin<&mut "@ + class_cpp + ">"@
        + bridge_queued_parameters(signal.parameters@) + ");\n"@
}

/// The declarations of all invokables inside the bridge.
pub open spec fn bridge_invokables(rust_class_name: Seq<char>, invokables: Seq<Invokable>) -> Seq<
    char,
> {
    concat(Seq::new(invokables.len(), |i: int| bridge_invokable(rust_class_name, invokables[i])))
}

/// The declarations of the accessors of all properties inside the bridge.
pub open spec fn bridge_properties(class_cpp: Seq<char>, properties: Seq<Property>) -> Seq<char> {
    concat(Seq::new(properties.len(), |i: int| bridge_property(class_cpp, properties[i])))
}

/// The declarations of all signals inside the bridge.
pub open spec fn bridge_signals(class_cpp: Seq<char>, signals: Seq<Signal>) -> Seq<char> {
    concat(Seq::new(signals.len(), |i: int| bridge_signal(class_cpp, signals[i])))
}

/// The include of the update requester; nothing where the object does not ask for the
/// update-request hook.
pub open spec fn bridge_update_include(handles_updates: bool) -> Seq<char> {
    if handles_updates {
        "include!(\"cxx-qt-lib/include/update_requester.h\");\n"@
    } else {
        ""@
    }
}

/// The type of the update requester; nothing where the object does not ask for the
/// update-request hook.
pub open spec fn bridge_update_type(handles_updates: bool) -> Seq<char> {
    if handles_updates {
        "#[namespace = \"rust::cxxqtlib1\"]\n"@
            + "type UpdateRequester = cxx_qt_lib::UpdateRequesterCpp;\n"@ + "\n"@
    } else {
        ""@
    }
}

/// The method that hands out an update requester; nothing where the object does not ask
/// for the update-request hook.
pub open spec fn bridge_update_method(class_cpp: Seq<char>, handles_updates: bool) -> Seq<char> {
    if handles_updates {
        "\n"@ + "#[rust_name = \"update_requester\"]\n"@ + "fn updateRequester(self: Pin<&mut "@
            + class_cpp + ">) -> UniquePtr<UpdateRequester>;\n"@
    } else {
        ""@
    }
}

/// The function that handles an update request; nothing where the object does not ask for
/// the update-request hook.
pub open spec fn bridge_update_handler(
    class_cpp: Seq<char>,
    rust_class_name: Seq<char>,
    handles_updates: bool,
) -> Seq<char> {
    if handles_updates {
        "\n"@ + "#[cxx_name = \"handleUpdateRequest\"]\n"@
            + "fn call_handle_update_request(self: &mut "@ + rust_class_name
            + ", cpp: Pin<&mut "@ + class_cpp + ">);\n"@
    } else {
        ""@
    }
}

/// What the bridge takes from C++: the class, the accessors of its properties, its signals
/// and the functions for internal use.
pub open spec fn bridge_cpp_block(obj: ObjectDescriptor) -> Seq<char> {
    let class_cpp = cpp_class_ident(obj);
    "unsafe extern \"C++\" {\n"@ + "include!("@ + string_literal(
        "cxx-qt-gen/include/"@ + snake_case(obj.ident@) + ".cxxqt.h"@,
    ) + ");\n"@ + "include!(\"cxx-qt-lib/include/convert.h\");\n"@ + bridge_update_include(
        obj.handles_updates(),
    ) + "include!(<QtCore/QObject>);\n"@ + "\n"@ + "#[cxx_name = "@ + string_literal(obj.ident@)
        + "]\n"@ + "type "@ + class_cpp + ";\n"@ + "\n"@ + bridge_update_type(
        obj.handles_updates(),
    ) + bridge_properties(class_cpp, obj.properties@) + bridge_signals(class_cpp, obj.signals@)
        + "\n"@ + "#[cxx_name = \"unsafeRust\"]\n"@ + "fn rust(self: &"@ + class_cpp + ") -> &"@
        + obj.original_rust_struct.ident@ + ";\n"@ + "#[rust_name = \"new_cpp_object\"]\n"@
        + "#[namespace = "@ + string_literal(
        namespace_internals_text(obj.namespace@, snake_case(obj.ident@)),
    ) + "]\n"@ + "fn newCppObject() -> UniquePtr<"@ + class_cpp + ">;\n"@
        + bridge_update_method(class_cpp, obj.handles_updates()) + "}\n"@
}

/// What the bridge takes from C++ and only unsafe code may call.
pub open spec fn bridge_unsafe_block(obj: ObjectDescriptor) -> Seq<char> {
    "extern \"C++\" {\n"@ + "#[cxx_name = \"unsafeRustMut\"]\n"@
        + "unsafe fn rust_mut(self: Pin<&mut "@ + cpp_class_ident(obj) + ">) -> Pin<&mut "@
        + obj.original_rust_struct.ident@ + ">;\n"@ + "}\n"@
}

/// What the bridge takes from Rust: the struct, its invokables and the functions for
/// internal use.
pub open spec fn bridge_rust_block(obj: ObjectDescriptor) -> Seq<char> {
    let class_cpp = cpp_class_ident(obj);
    let rust_class_name = obj.original_rust_struct.ident@;
    let internals = string_literal(
        namespace_internals_text(obj.namespace@, snake_case(obj.ident@)),
    );
    "extern \"Rust\" {\n"@ + "#[cxx_name = "@ + string_literal(obj.ident@ + "Rust"@) + "]\n"@
        + "type "@ + rust_class_name + ";\n"@ + "\n"@ + bridge_invokables(
        rust_class_name,
        obj.invokables@,
    ) + "\n"@ + "#[cxx_name = \"createRs\"]\n"@ + "#[namespace = "@ + internals + "]\n"@
        + "fn create_rs() -> Box<"@ + rust_class_name + ">;\n"@ + "\n"@
        + "#[cxx_name = \"initialiseCpp\"]\n"@ + "#[namespace = "@ + internals + "]\n"@
        + "fn initialise_cpp(cpp: Pin<&mut "@ + class_cpp + ">);\n"@ + bridge_update_handler(
        class_cpp,
        rust_class_name,
        obj.handles_updates(),
    ) + "}\n"@
}

/// The module that holds the bridge of an object: the attributes and the head of the
/// module that the object was written in, the three blocks, and the items that are passed
/// through.
pub open spec fn bridge_text(obj: ObjectDescriptor) -> Seq<char> {
    lines(obj.original_mod.attrs.deep_view()) + visibility_text(obj.original_mod.vis@) + "mod "@
        + obj.original_mod.ident@ + " {\n"@ + bridge_cpp_block(obj) + "\n"@
        + bridge_unsafe_block(obj) + "\n"@ + bridge_rust_block(obj) + "\n"@ + lines(
        obj.cxx_items.deep_view(),
    ) + "}\n"@
}

/// Writes the mark of a reference.
fn write_reference(is_ref: bool) -> (r: &'static str)
    ensures
        r@ == reference_text(is_ref),
{
    if is_ref {
        "&"
    } else {
        ""
    }
}

/// Writes the mark of mutability.
fn write_mutable(is_mut: bool) -> (r: &'static str)
    ensures
        r@ == mutable_text(is_mut),
{
    if is_mut {
        "mut "
    } else {
        ""
    }
}

/// Writes the given texts, each closed by a line break.
pub fn write_lines(items: &Vec<String>) -> (r: String)
    ensures
        r@ == lines(items.deep_view()),
{
    let mut closed: Vec<String> = Vec::new();
    let mut i: usize = 0;
    while i < items.len()
        invariant
            i <= items.len(),
            closed.deep_view() =~= Seq::new(i as nat, |j: int| items.deep_view()[j] + "\n"@),
        decreases items.len() - i,
    {
        push_string(&mut closed, String::from_str(items[i].as_str()).concat("\n"));
        i += 1;
    }
    assert(closed.deep_view() =~= Seq::new(
        items.deep_view().len(),
        |j: int| items.deep_view()[j] + "\n"@,
    ));
    concat_strings(&closed)
}

/// Writes a visibility with the blank behind it.
fn write_visibility(vis: &str) -> (r: String)
    ensures
        r@ == visibility_text(vis@),
{
    if vis.is_empty() {
        String::from_str("")
    } else {
        String::from_str(vis).concat(" ")
    }
}

/// Writes the parameters of an invokable inside the bridge.
fn write_bridge_parameters(parameters: &Vec<Parameter>) -> (r: String)
    ensures
        r@ == bridge_parameters(parameters@),
{
    let mut quotes: Vec<String> = Vec::new();
    let mut i: usize = 0;
    while i < parameters.len()
        invariant
            i <= parameters.len(),
            quotes.deep_view() =~= Seq::new(
                i as nat,
                |j: int| ", "@ + bridge_parameter(parameters@[j]),
            ),
        decreases parameters.len() - i,
    {
        let p = &parameters[i];
        let type_ident = p.type_ident.qt_type.cxx_bridge_type_ident();
        // A pinned object is declared as such, whatever it was written as.
        let quote = match &p.type_ident.qt_type {
            QtTypes::CppObj { .. } => String::from_str(", ").concat(p.ident.as_str()).concat(
                ": Pin<&mut ",
            ).concat(type_ident.as_str()).concat(">"),
            _ => String::from_str(", ").concat(p.ident.as_str()).concat(": ").concat(
                write_reference(p.type_ident.is_ref),
            ).concat(write_mutable(p.type_ident.is_mut)).concat(type_ident.as_str()),
        };
        assert(quote@ =~= ", "@ + bridge_parameter(*p));
        push_string(&mut quotes, quote);
        i += 1;
    }
    assert(quotes.deep_view() =~= Seq::new(
        parameters@.len(),
        |j: int| ", "@ + bridge_parameter(parameters@[j]),
    ));
    concat_strings(&quotes)
}

/// Writes the return type of an invokable inside the bridge.
fn write_bridge_return(return_type: &Option<ParameterType>) -> (r: String)
    ensures
        r@ == bridge_return(*return_type),
{
    match return_type {
        None => String::from_str(""),
        Some(t) => {
            let type_ident = t.qt_type.cxx_bridge_type_ident();
            let type_ident = if t.qt_type.is_opaque() {
                String::from_str("UniquePtr<").concat(type_ident.as_str()).concat(">")
            } else if t.is_ref {
                String::from_str("&").concat(type_ident.as_str())
            } else {
                type_ident
            };
            let ghost inner = type_ident@;
            let out = String::from_str(" -> ").concat(type_ident.as_str());
            assert(out@ == " -> "@ + inner);
            out
        },
    }
}

/// Writes the declaration of an invokable inside the bridge.
fn write_bridge_invokable(rust_class_name: &str, invokable: &Invokable) -> (r: String)
    ensures
        r@ == bridge_invokable(rust_class_name@, *invokable),
{
    let (ident, ident_cpp_str) = match &invokable.ident_wrapper {
        Some(wrapper) => (wrapper.rust_ident.as_str(), wrapper.cpp_ident.as_str()),
        None => (invokable.ident.rust_ident.as_str(), invokable.ident.cpp_ident.as_str()),
    };
    String::from_str("#[cxx_name = ").concat(write_string_literal(ident_cpp_str).as_str()).concat(
        "]\n",
    ).concat("fn ").concat(ident).concat("(self: &").concat(
        write_mutable(invokable.mutable),
    ).concat(rust_class_name).concat(
        write_bridge_parameters(&invokable.parameters).as_str(),
    ).concat(")").concat(write_bridge_return(&invokable.return_type).as_str()).concat(";\n")
}

/// Writes the declarations of the accessors of a property inside the bridge.
fn write_bridge_property(class_cpp: &str, property: &Property) -> (r: String)
    ensures
        r@ == bridge_property(class_cpp@, *property),
{
    let qt_type = &property.type_ident.qt_type;
    let param_type = String::from_str(write_reference(qt_type.is_ref())).concat(
        qt_type.cxx_bridge_type_ident().as_str(),
    );
    String::from_str("#[rust_name = ").concat(
        write_string_literal(rust_name_of(&property.getter)).as_str(),
    ).concat("]\n").concat("fn ").concat(cpp_name_of(&property.getter)).concat(
        "(self: &",
    ).concat(class_cpp).concat(") -> ").concat(param_type.as_str()).concat(";\n").concat(
        "#[rust_name = ",
    ).concat(write_string_literal(rust_name_of(&property.setter)).as_str()).concat(
        "]\n",
    ).concat("fn ").concat(cpp_name_of(&property.setter)).concat("(self: Pin<&mut ").concat(
        class_cpp,
    ).concat(">, value: ").concat(param_type.as_str()).concat(");\n")
}

/// Writes the parameters of a signal inside the bridge, for the one way of emitting or for
/// the other.
fn write_bridge_signal_parameters(parameters: &Vec<Parameter>, queued: bool) -> (r: String)
    ensures
        r@ == if queued {
            bridge_queued_parameters(parameters@)
        } else {
            bridge_immediate_parameters(parameters@)
        },
{
    let mut quotes: Vec<String> = Vec::new();
    let mut i: usize = 0;
    while i < parameters.len()
        invariant
            i <= parameters.len(),
            quotes.deep_view() =~= Seq::new(
                i as nat,
                |j: int|
                    ", "@ + parameters@[j].ident@ + ": "@ + if queued {
                        bridge_queued_type(parameters@[j].type_ident.qt_type)
                    } else {
                        bridge_immediate_type(parameters@[j].type_ident.qt_type)
                    },
            ),
        decreases parameters.len() - i,
    {
        let p = &parameters[i];
        let param_type = p.type_ident.qt_type.cxx_bridge_type_ident();
        let param_type = if queued {
            // By value, or behind a `UniquePtr`.
            if p.type_ident.qt_type.is_opaque() {
                String::from_str("UniquePtr<").concat(param_type.as_str()).concat(">")
            } else {
                param_type
            }
        } else {
            // By reference, or a primitive by value.
            String::from_str(write_reference(p.type_ident.qt_type.is_ref())).concat(
                param_type.as_str(),
            )
        };
        push_string(
            &mut quotes,
            String::from_str(", ").concat(p.ident.as_str()).concat(": ").concat(
                param_type.as_str(),
            ),
        );
        i += 1;
    }
    proof {
        if queued {
            assert(quotes.deep_view() =~= Seq::new(
                parameters@.len(),
                |j: int|
                    ", "@ + parameters@[j].ident@ + ": "@ + bridge_queued_type(
                        parameters@[j].type_ident.qt_type,
                    ),
            ));
        } else {
            assert(quotes.deep_view() =~= Seq::new(
                parameters@.len(),
                |j: int|
                    ", "@ + parameters@[j].ident@ + ": "@ + bridge_immediate_type(
                        parameters@[j].type_ident.qt_type,
                    ),
            ));
        }
    }
    concat_strings(&quotes)
}

/// Writes the two declarations of a signal inside the bridge.
fn write_bridge_signal(class_cpp: &str, signal: &Signal) -> (r: String)
    ensures
        r@ == bridge_signal(class_cpp@, *signal),
{
    String::from_str("#[rust_name = ").concat(
        write_string_literal(signal.signal_ident.rust_ident.as_str()).as_str(),
    ).concat("]\n").concat("fn ").concat(signal.signal_ident.cpp_ident.as_str()).concat(
        "(self: Pin<&mut ",
    ).concat(class_cpp).concat(">").concat(
        write_bridge_signal_parameters(&signal.parameters, false).as_str(),
    ).concat(");\n").concat("#[rust_name = ").concat(
        write_string_literal(signal.emit_ident.rust_ident.as_str()).as_str(),
    ).concat("]\n").concat("fn ").concat(signal.emit_ident.cpp_ident.as_str()).concat(
        "(self: Pin<&mut ",
    ).concat(class_cpp).concat(">").concat(
        write_bridge_signal_parameters(&signal.parameters, true).as_str(),
    ).concat(");\n")
}

/// Writes the declarations of all invokables inside the bridge.
fn write_bridge_invokables(rust_class_name: &str, invokables: &Vec<Invokable>) -> (r: String)
    ensures
        r@ == bridge_invokables(rust_class_name@, invokables@),
{
    let mut rs_functions: Vec<String> = Vec::new();
    let mut i: usize = 0;
    while i < invokables.len()
        invariant
            i <= invokables.len(),
            rs_functions.deep_view() =~= Seq::new(
                i as nat,
                |j: int| bridge_invokable(rust_class_name@, invokables@[j]),
            ),
        decreases invokables.len() - i,
    {
        push_string(&mut rs_functions, write_bridge_invokable(rust_class_name, &invokables[i]));
        i += 1;
    }
    assert(rs_functions.deep_view() =~= Seq::new(
        invokables@.len(),
        |j: int| bridge_invokable(rust_class_name@, invokables@[j]),
    ));
    concat_strings(&rs_functions)
}

/// Writes the declarations of the accessors of all properties inside the bridge.
fn write_bridge_properties(class_cpp: &str, properties: &Vec<Property>) -> (r: String)
    ensures
        r@ == bridge_properties(class_cpp@, properties@),
{
    let mut cpp_functions: Vec<String> = Vec::new();
    let mut i: usize = 0;
    while i < properties.len()
        invariant
            i <= properties.len(),
            cpp_functions.deep_view() =~= Seq::new(
                i as nat,
                |j: int| bridge_property(class_cpp@, properties@[j]),
            ),
        decreases properties.len() - i,
    {
        push_string(&mut cpp_functions, write_bridge_property(class_cpp, &properties[i]));
        i += 1;
    }
    assert(cpp_functions.deep_view() =~= Seq::new(
        properties@.len(),
        |j: int| bridge_property(class_cpp@, properties@[j]),
    ));
    concat_strings(&cpp_functions)
}

/// Writes the declarations of all signals inside the bridge.
fn write_bridge_signals(class_cpp: &str, signals: &Vec<Signal>) -> (r: String)
    ensures
        r@ == bridge_signals(class_cpp@, signals@),
{
    let mut cpp_functions: Vec<String> = Vec::new();
    let mut i: usize = 0;
    while i < signals.len()
        invariant
            i <= signals.len(),
            cpp_functions.deep_view() =~= Seq::new(
                i as nat,
                |j: int| bridge_signal(class_cpp@, signals@[j]),
            ),
        decreases signals.len() - i,
    {
        push_string(&mut cpp_functions, write_bridge_signal(class_cpp, &signals[i]));
        i += 1;
    }
    assert(cpp_functions.deep_view() =~= Seq::new(
        signals@.len(),
        |j: int| bridge_signal(class_cpp@, signals@[j]),
    ));
    concat_strings(&cpp_functions)
}

/// Writes what the bridge takes from C++.
fn write_bridge_cpp_block(obj: &ObjectDescriptor) -> (r: String)
    requires
        is_ascii_chars(obj.ident@),
    ensures
        r@ == bridge_cpp_block(*obj),
{
    let class_name = obj.ident.as_str();
    let rust_class_name_cpp = String::from_str(class_name).concat("Qt");
    let class_cpp = rust_class_name_cpp.as_str();
    let ident_snake = to_snake_case(class_name);
    let import_path = String::from_str("cxx-qt-gen/include/").concat(
        ident_snake.as_str(),
    ).concat(".cxxqt.h");
    let handles_updates = obj.handle_updates_impl.is_some();
    let update_requester_include = if handles_updates {
        "include!(\"cxx-qt-lib/include/update_requester.h\");\n"
    } else {
        ""
    };
    let update_requester_type = if handles_updates {
        String::from_str("#[namespace = \"rust::cxxqtlib1\"]\n").concat(
            "type UpdateRequester = cxx_qt_lib::UpdateRequesterCpp;\n",
        ).concat("\n")
    } else {
        String::from_str("")
    };
    let request_updater_method = if handles_updates {
        String::from_str("\n").concat("#[rust_name = \"update_requester\"]\n").concat(
            "fn updateRequester(self: Pin<&mut ",
        ).concat(class_cpp).concat(">) -> UniquePtr<UpdateRequester>;\n")
    } else {
        String::from_str("")
    };
    let internals = write_namespace_internals(obj.namespace.as_str(), ident_snake.as_str());
    String::from_str("unsafe extern \"C++\" {\n").concat("include!(").concat(
        write_string_literal(import_path.as_str()).as_str(),
    ).concat(");\n").concat("include!(\"cxx-qt-lib/include/convert.h\");\n").concat(
        update_requester_include,
    ).concat("include!(<QtCore/QObject>);\n").concat("\n").concat("#[cxx_name = ").concat(
        write_string_literal(class_name).as_str(),
    ).concat("]\n").concat("type ").concat(class_cpp).concat(";\n").concat("\n").concat(
        update_requester_type.as_str(),
    ).concat(write_bridge_properties(class_cpp, &obj.properties).as_str()).concat(
        write_bridge_signals(class_cpp, &obj.signals).as_str(),
    ).concat("\n").concat("#[cxx_name = \"unsafeRust\"]\n").concat("fn rust(self: &").concat(
        class_cpp,
    ).concat(") -> &").concat(obj.original_rust_struct.ident.as_str()).concat(";\n").concat(
        "#[rust_name = \"new_cpp_object\"]\n",
    ).concat("#[namespace = ").concat(write_string_literal(internals.as_str()).as_str()).concat(
        "]\n",
    ).concat("fn newCppObject() -> UniquePtr<").concat(class_cpp).concat(">;\n").concat(
        request_updater_method.as_str(),
    ).concat("}\n")
}

/// Writes what the bridge takes from Rust.
fn write_bridge_rust_block(obj: &ObjectDescriptor) -> (r: String)
    requires
        is_ascii_chars(obj.ident@),
    ensures
        r@ == bridge_rust_block(*obj),
{
    let class_name = obj.ident.as_str();
    let rust_class_name_cpp = String::from_str(class_name).concat("Qt");
    let class_cpp = rust_class_name_cpp.as_str();
    let cxx_class_name_rust = String::from_str(class_name).concat("Rust");
    let rust_class_name = obj.original_rust_struct.ident.as_str();
    let ident_snake = to_snake_case(class_name);
    let internals = write_string_literal(
        write_namespace_internals(obj.namespace.as_str(), ident_snake.as_str()).as_str(),
    );
    let handle_update_request = if obj.handle_updates_impl.is_some() {
        String::from_str("\n").concat("#[cxx_name = \"handleUpdateRequest\"]\n").concat(
            "fn call_handle_update_request(self: &mut ",
        ).concat(rust_class_name).concat(", cpp: Pin<&mut ").concat(class_cpp).concat(">);\n")
    } else {
        String::from_str("")
    };
    String::from_str("extern \"Rust\" {\n").concat("#[cxx_name = ").concat(
        write_string_literal(cxx_class_name_rust.as_str()).as_str(),
    ).concat("]\n").concat("type ").concat(rust_class_name).concat(";\n").concat("\n").concat(
        write_bridge_invokables(rust_class_name, &obj.invokables).as_str(),
    ).concat("\n").concat("#[cxx_name = \"createRs\"]\n").concat("#[namespace = ").concat(
        internals.as_str(),
    ).concat("]\n").concat("fn create_rs() -> Box<").concat(rust_class_name).concat(
        ">;\n",
    ).concat("\n").concat("#[cxx_name = \"initialiseCpp\"]\n").concat("#[namespace = ").concat(
        internals.as_str(),
    ).concat("]\n").concat("fn initialise_cpp(cpp: Pin<&mut ").concat(class_cpp).concat(
        ">);\n",
    ).concat(handle_update_request.as_str()).concat("}\n")
}

/// Writes the module that holds the bridge of an object. Nothing is written where the
/// description breaks a rule.
pub fn qobject_cxx_text(obj: &ObjectDescriptor) -> (r: Result<String, GenerationError>)
    ensures
        match r {
            Ok(text) => obj.rust_violation() is None && text@ == bridge_text(*obj),
            Err(GenerationError::Descriptor(violation)) => obj.rust_violation() == Some(violation),
            Err(GenerationError::Syntax(_)) => false,
        },
{
    match obj.check_rust() {
        Some(violation) => {
            return Err(GenerationError::Descriptor(violation));
        },
        None => {},
    }
    let rust_class_name_cpp = String::from_str(obj.ident.as_str()).concat("Qt");
    let unsafe_block = String::from_str("extern \"C++\" {\n").concat(
        "#[cxx_name = \"unsafeRustMut\"]\n",
    ).concat("unsafe fn rust_mut(self: Pin<&mut ").concat(rust_class_name_cpp.as_str()).concat(
        ">) -> Pin<&mut ",
    ).concat(obj.original_rust_struct.ident.as_str()).concat(">;\n").concat("}\n");
    let output = write_lines(&obj.original_mod.attrs).concat(
        write_visibility(obj.original_mod.vis.as_str()).as_str(),
    ).concat("mod ").concat(obj.original_mod.ident.as_str()).concat(" {\n").concat(
        write_bridge_cpp_block(obj).as_str(),
    ).concat("\n").concat(unsafe_block.as_str()).concat("\n").concat(
        write_bridge_rust_block(obj).as_str(),
    ).concat("\n").concat(write_lines(&obj.cxx_items).as_str()).concat("}\n");
    Ok(output)
}

/// Generates the module that holds the bridge of an object and has `syn` check that it is
/// a module. A description that breaks a rule of the Rust side is refused before anything
/// is written. For any other description the text that is checked is `bridge_text`, and it
/// is what comes back where the check finds no error.
pub fn generate_qobject_cxx(obj: &ObjectDescriptor) -> (r: Result<String, GenerationError>)
    ensures
        match r {
            Ok(text) => obj.rust_violation() is None && text@ == bridge_text(*obj),
            Err(GenerationError::Descriptor(violation)) => obj.rust_violation() == Some(violation),
            Err(GenerationError::Syntax(_)) => obj.rust_violation() is None,
        },
{
    let output = match qobject_cxx_text(obj) {
        Ok(output) => output,
        Err(error) => {
            return Err(error);
        },
    };
    let syntax_error = module_syntax_error(output.as_str());
    checked_text(output, syntax_error)
}

/// The type by which the Rust side handles a property: what an owning handle owns, else
/// the type itself.
pub open spec fn property_value_type(property: Property) -> QtTypes {
    match property.type_ident.qt_type {
        QtTypes::UniquePtr { inner } => *inner,
        t => t,
    }
}

/// The type of a property in the methods of the Rust side: an opaque value is handled by
/// value, any other reference type by reference.
pub open spec fn property_rust_type(property: Property) -> Seq<char> {
    let t = property_value_type(property);
    reference_text(!t.spec_is_opaque() && t.spec_is_ref()) + t.host_name()
}

/// The method that takes the owned pointer out of a property that is kept by pointer.
pub open spec fn property_take_method(property: Property) -> Seq<char> {
    "pub fn take_"@ + property.ident.rust_ident@ + "(&mut self) -> "@ + property_rust_type(
        property,
    ) + " {\n"@ + "self.cpp.as_mut().take_"@ + property.ident.rust_ident@ + "()\n"@ + "}\n"@
}

/// The method that gives a property that is kept by pointer a pointer to own.
pub open spec fn property_give_method(property: Property) -> Seq<char> {
    "pub fn give_"@ + property.ident.rust_ident@ + "(&mut self, value: "@ + property_rust_type(
        property,
    ) + ") {\n"@ + "self.cpp.as_mut().give_"@ + property.ident.rust_ident@ + "(value);\n"@
        + "}\n"@
}

/// The getter of a property that is kept by value.
pub open spec fn property_getter_method(property: Property) -> Seq<char> {
    "pub fn "@ + rust_name(property.getter) + "(&self) -> "@ + property_rust_type(property)
        + " {\n"@ + "self.cpp."@ + rust_name(property.getter) + "()\n"@ + "}\n"@
}

/// The setter of a property that is kept by value: an opaque value is taken by value and
/// handed on by reference.
pub open spec fn property_setter_method(property: Property) -> Seq<char> {
    "pub fn "@ + rust_name(property.setter) + "(&mut self, value: "@ + property_rust_type(
        property,
    ) + ") {\n"@ + "self.cpp.as_mut()."@ + rust_name(property.setter) + "("@ + reference_text(
        property_value_type(property).spec_is_opaque(),
    ) + "value);\n"@ + "}\n"@
}

/// The two methods of a property on the Rust side: the pair that moves ownership for a
/// property that is kept by pointer, getter and setter for any other.
pub open spec fn property_methods(property: Property) -> Seq<Seq<char>> {
    if property.type_ident.qt_type is CppObj {
        seq![property_take_method(property), property_give_method(property)]
    } else {
        seq![property_getter_method(property), property_setter_method(property)]
    }
}

/// The methods of all properties on the Rust side, in the order of the properties.
pub open spec fn properties_methods_rs(properties: Seq<Property>) -> Seq<Seq<char>>
    decreases properties.len(),
{
    if properties.len() == 0 {
        Seq::empty()
    } else {
        properties_methods_rs(properties.drop_last()) + property_methods(properties.last())
    }
}

/// Generates the two methods of one property on the Rust side.
fn generate_property_method_pair(property: &Property) -> (r: (String, String))
    ensures
        seq![r.0@, r.1@] == property_methods(*property),
{
    let qt_type = match &property.type_ident.qt_type {
        QtTypes::UniquePtr { inner } => &**inner,
        _ => &property.type_ident.qt_type,
    };
    assert(*qt_type == property_value_type(*property));
    // An opaque type is passed by value although it is no trivial type.
    let rust_param_type = String::from_str(
        write_reference(!qt_type.is_opaque() && qt_type.is_ref()),
    ).concat(qt_type.cxx_qt_lib_type().as_str());
    let cpp_getter_ident = rust_name_of(&property.getter);
    let cpp_setter_ident = rust_name_of(&property.setter);
    let pair = match &property.type_ident.qt_type {
        QtTypes::CppObj { .. } => {
            let ident = property.ident.rust_ident.as_str();
            (
                String::from_str("pub fn take_").concat(ident).concat("(&mut self) -> ").concat(
                    rust_param_type.as_str(),
                ).concat(" {\n").concat("self.cpp.as_mut().take_").concat(ident).concat(
                    "()\n",
                ).concat("}\n"),
                String::from_str("pub fn give_").concat(ident).concat(
                    "(&mut self, value: ",
                ).concat(rust_param_type.as_str()).concat(") {\n").concat(
                    "self.cpp.as_mut().give_",
                ).concat(ident).concat("(value);\n").concat("}\n"),
            )
        },
        _ => (
            String::from_str("pub fn ").concat(cpp_getter_ident).concat("(&self) -> ").concat(
                rust_param_type.as_str(),
            ).concat(" {\n").concat("self.cpp.").concat(cpp_getter_ident).concat(
                "()\n",
            ).concat("}\n"),
            String::from_str("pub fn ").concat(cpp_setter_ident).concat(
                "(&mut self, value: ",
            ).concat(rust_param_type.as_str()).concat(") {\n").concat(
                "self.cpp.as_mut().",
            ).concat(cpp_setter_ident).concat("(").concat(
                write_reference(qt_type.is_opaque()),
            ).concat("value);\n").concat("}\n"),
        ),
    };
    assert(seq![pair.0@, pair.1@] =~= property_methods(*property));
    pair
}

/// Generates the methods of the properties on the Rust side, two for each property in the
/// order of the properties. Nothing is generated where a property lacks its getter or its
/// setter; nothing else of the description is looked at.
pub fn generate_property_methods_rs(obj: &ObjectDescriptor) -> (r: Result<
    Vec<String>,
    GenerationError,
>)
    ensures
        match r {
            Ok(methods) => !accessors_missing(obj.properties@) && methods.deep_view()
                == properties_methods_rs(obj.properties@),
            Err(GenerationError::Descriptor(violation)) => accessors_missing(obj.properties@)
                && violation == Violation::MissingAccessor,
            Err(GenerationError::Syntax(_)) => false,
        },
{
    if check_accessors(obj.properties.as_slice()) {
        return Err(GenerationError::Descriptor(Violation::MissingAccessor));
    }
    Ok(write_property_methods(&obj.properties))
}

/// Writes the methods of all properties on the Rust side.
fn write_property_methods(properties: &Vec<Property>) -> (r: Vec<String>)
    ensures
        r.deep_view() == properties_methods_rs(properties@),
{
    let mut property_methods: Vec<String> = Vec::new();
    let mut i: usize = 0;
    assert(property_methods.deep_view() =~= properties_methods_rs(properties@.take(0)));
    while i < properties.len()
        invariant
            i <= properties.len(),
            property_methods.deep_view() =~= properties_methods_rs(properties@.take(i as int)),
        decreases properties.len() - i,
    {
        proof {
            let seen = properties@.take(i + 1);
            assert(seen.drop_last() =~= properties@.take(i as int));
            assert(seen.last() == properties@[i as int]);
        }
        let (first, second) = generate_property_method_pair(&properties[i]);
        let ghost pair = seq![first@, second@];
        let ghost before = property_methods.deep_view();
        push_string(&mut property_methods, first);
        push_string(&mut property_methods, second);
        assert(property_methods.deep_view() =~= before + pair);
        i += 1;
    }
    proof {
        assert(properties@.take(properties@.len() as int) =~= properties@);
    }
    property_methods
}

/// The names of the parameters of a signal.
pub open spec fn signal_parameter_idents(parameters: Seq<Parameter>) -> Seq<Seq<char>> {
    Seq::new(parameters.len(), |i: int| parameters[i].ident@)
}

/// What is handed to a signal that is emitted at once: a reference to each parameter of an
/// opaque or a reference type, any other parameter itself.
pub open spec fn signal_values_immediate(parameters: Seq<Parameter>) -> Seq<Seq<char>> {
    Seq::new(
        parameters.len(),
        |i: int|
            reference_text(
                parameters[i].type_ident.qt_type.spec_is_opaque()
                    || parameters[i].type_ident.qt_type.spec_is_ref(),
            ) + parameters[i].ident@,
    )
}

/// The pattern that matches one signal of the enum of signals.
pub open spec fn signal_pattern(enum_ident: Seq<char>, signal: Signal) -> Seq<char> {
    enum_ident + "::"@ + signal.enum_ident@ + " { "@ + join(
        signal_parameter_idents(signal.parameters@),
        ", "@,
    ) + " }"@
}

/// The arm that emits one signal. Through the event queue every parameter is handed on as
/// it is, so that its value moves; at once, references are handed on.
pub open spec fn signal_case(enum_ident: Seq<char>, signal: Signal, queued: bool) -> Seq<char> {
    signal_pattern(enum_ident, signal) + " => self.cpp.as_mut()."@ + (if queued {
        signal.emit_ident.rust_ident@
    } else {
        signal.signal_ident.rust_ident@
    }) + "("@ + join(
        if queued {
            signal_parameter_idents(signal.parameters@)
        } else {
            signal_values_immediate(signal.parameters@)
        },
        ", "@,
    ) + "),\n"@
}

/// The arms of all signals.
pub open spec fn signal_cases(enum_ident: Seq<char>, signals: Seq<Signal>, queued: bool) -> Seq<
    Seq<char>,
> {
    Seq::new(signals.len(), |i: int| signal_case(enum_ident, signals[i], queued))
}

/// The method that emits any signal through the event queue.
pub open spec fn emit_queued_method(enum_ident: Seq<char>, signals: Seq<Signal>) -> Seq<char> {
    "pub fn emit_queued(&mut self, signal: "@ + enum_ident + ") {\n"@ + "match signal {\n"@
        + concat(signal_cases(enum_ident, signals, true)) + "}\n"@ + "}\n"@
}

/// The method that emits any signal at once. It is unsafe: the caller has to be on the
/// thread of the object.
pub open spec fn emit_immediate_method(enum_ident: Seq<char>, signals: Seq<Signal>) -> Seq<char> {
    "pub unsafe fn emit_immediate(&mut self, signal: "@ + enum_ident + ") {\n"@
        + "match signal {\n"@ + concat(signal_cases(enum_ident, signals, false)) + "}\n"@
        + "}\n"@
}

/// The two methods that emit signals; none for an object without signals.
pub open spec fn signal_methods(obj: ObjectDescriptor) -> Seq<Seq<char>> {
    if obj.signals@.len() == 0 {
        Seq::empty()
    } else {
        seq![
            emit_queued_method(obj.signal_ident@, obj.signals@),
            emit_immediate_method(obj.signal_ident@, obj.signals@),
        ]
    }
}

/// Writes the arm of one signal, for the one way of emitting or for the other.
fn write_signal_case(enum_ident: &str, signal: &Signal, queued: bool) -> (r: String)
    ensures
        r@ == signal_case(enum_ident@, *signal, queued),
{
    let mut parameters: Vec<String> = Vec::new();
    let mut values: Vec<String> = Vec::new();
    let mut i: usize = 0;
    while i < signal.parameters.len()
        invariant
            i <= signal.parameters.len(),
            parameters.deep_view() =~= signal_parameter_idents(signal.parameters@.take(i as int)),
            values.deep_view() =~= if queued {
                signal_parameter_idents(signal.parameters@.take(i as int))
            } else {
                signal_values_immediate(signal.parameters@.take(i as int))
            },
        decreases signal.parameters.len() - i,
    {
        let parameter = &signal.parameters[i];
        push_string(&mut parameters, parameter.ident.clone());
        let value = if queued {
            parameter.ident.clone()
        } else {
            String::from_str(
                write_reference(
                    parameter.type_ident.qt_type.is_opaque()
                        || parameter.type_ident.qt_type.is_ref(),
                ),
            ).concat(parameter.ident.as_str())
        };
        push_string(&mut values, value);
        i += 1;
    }
    proof {
        assert(signal.parameters@.take(signal.parameters@.len() as int) =~= signal.parameters@);
    }
    let target = if queued {
        signal.emit_ident.rust_ident.as_str()
    } else {
        signal.signal_ident.rust_ident.as_str()
    };
    String::from_str(enum_ident).concat("::").concat(signal.enum_ident.as_str()).concat(
        " { ",
    ).concat(join_strings(&parameters, ", ").as_str()).concat(" }").concat(
        " => self.cpp.as_mut().",
    ).concat(target).concat("(").concat(join_strings(&values, ", ").as_str()).concat("),\n")
}

/// Writes the arms of all signals, for the one way of emitting or for the other.
fn write_signal_cases(enum_ident: &str, signals: &Vec<Signal>, queued: bool) -> (r: String)
    ensures
        r@ == concat(signal_cases(enum_ident@, signals@, queued)),
{
    let mut cases: Vec<String> = Vec::new();
    let mut i: usize = 0;
    while i < signals.len()
        invariant
            i <= signals.len(),
            cases.deep_view() =~= signal_cases(enum_ident@, signals@.take(i as int), queued),
        decreases signals.len() - i,
    {
        push_string(&mut cases, write_signal_case(enum_ident, &signals[i], queued));
        i += 1;
    }
    proof {
        assert(signals@.take(signals@.len() as int) =~= signals@);
    }
    concat_strings(&cases)
}

/// Generates the methods that emit the signals of an object.
pub fn generate_signal_methods_rs(obj: &ObjectDescriptor) -> (r: Result<
    Vec<String>,
    GenerationError,
>)
    ensures
        r matches Ok(methods) && methods.deep_view() == signal_methods(*obj),
{
    Ok(write_signal_methods(obj))
}

/// Writes the methods that emit the signals of an object.
fn write_signal_methods(obj: &ObjectDescriptor) -> (r: Vec<String>)
    ensures
        r.deep_view() == signal_methods(*obj),
{
    let mut methods: Vec<String> = Vec::new();
    let ident = obj.signal_ident.as_str();
    if obj.signals.len() > 0 {
        let queued_cases = write_signal_cases(ident, &obj.signals, true);
        let immediate_cases = write_signal_cases(ident, &obj.signals, false);
        let queued = String::from_str("pub fn emit_queued(&mut self, signal: ").concat(
            ident,
        ).concat(") {\n").concat("match signal {\n").concat(queued_cases.as_str()).concat(
            "}\n",
        ).concat("}\n");
        let immediate = String::from_str(
            "pub unsafe fn emit_immediate(&mut self, signal: ",
        ).concat(ident).concat(") {\n").concat("match signal {\n").concat(
            immediate_cases.as_str(),
        ).concat("}\n").concat("}\n");
        let ghost pair = seq![queued@, immediate@];
        push_string(&mut methods, queued);
        push_string(&mut methods, immediate);
        assert(methods.deep_view() =~= pair);
    } else {
        assert(methods.deep_view() =~= Seq::<Seq<char>>::empty());
    }
    methods
}

/// The texts of a list of fields.
pub open spec fn field_texts(fields: Seq<&Field>) -> Seq<Seq<char>> {
    Seq::new(fields.len(), |i: int| fields[i].text@)
}

/// A struct with the given fields in place of its own: its attributes, its head, and the
/// fields between braces, or a semicolon where there is no field.
pub open spec fn struct_text(original: ItemStruct, fields: Seq<Seq<char>>) -> Seq<char> {
    lines(original.attrs.deep_view()) + visibility_text(original.vis@) + "struct "@
        + original.ident@ + original.generics@ + (if fields.len() == 0 {
        ";\n"@
    } else {
        " {\n"@ + join(fields, ",\n"@) + "\n"@ + "}\n"@
    })
}

/// Builds a struct with the given fields in place of its own.
pub fn build_struct_with_fields(original_struct: &ItemStruct, new_fields: &Vec<&Field>) -> (r:
    String)
    ensures
        r@ == struct_text(*original_struct, field_texts(new_fields@)),
{
    let mut texts: Vec<String> = Vec::new();
    let mut i: usize = 0;
    while i < new_fields.len()
        invariant
            i <= new_fields.len(),
            texts.deep_view() =~= field_texts(new_fields@.take(i as int)),
        decreases new_fields.len() - i,
    {
        push_string(&mut texts, new_fields[i].text.clone());
        i += 1;
    }
    proof {
        assert(new_fields@.take(new_fields@.len() as int) =~= new_fields@);
    }
    let head = write_lines(&original_struct.attrs).concat(
        write_visibility(original_struct.vis.as_str()).as_str(),
    ).concat("struct ").concat(original_struct.ident.as_str()).concat(
        original_struct.generics.as_str(),
    );
    // Without fields the struct ends in a semicolon, not in braces.
    if new_fields.len() == 0 {
        head.concat(";\n")
    } else {
        let ghost head_text = head@;
        let body = String::from_str(" {\n").concat(join_strings(&texts, ",\n").as_str()).concat(
            "\n",
        ).concat("}\n");
        let ghost body_text = body@;
        let out = head.concat(body.as_str());
        assert(out@ == head_text + body_text);
        out
    }
}

/// The path to an item beside another object: the path to that object with the item's name
/// in place of the last part.
pub open spec fn sibling_path(path: Seq<Seq<char>>, name: Seq<char>) -> Seq<char> {
    join(path.drop_last().push(name), "::"@)
}

/// A parameter as the wrapper of an invokable takes it: another object comes as the pinned
/// C++ object, any other type as its full Rust type.
pub open spec fn wrapper_input(parameter: Parameter) -> Seq<char> {
    match parameter.type_ident.qt_type {
        QtTypes::CppObj { rust_type_idents, .. } => parameter.ident@
            + ": std::pin::Pin<&mut "@ + sibling_path(
            rust_type_idents.deep_view(),
            "FFICppObj"@,
        ) + ">"@,
        t => parameter.ident@ + ": "@ + reference_text(parameter.type_ident.is_ref)
            + mutable_text(parameter.type_ident.is_mut) + t.host_name(),
    }
}

/// The statement by which the wrapper of an invokable converts a parameter: another object
/// is wrapped, an opaque value is turned into its Rust value, any other needs nothing.
pub open spec fn wrapper_statement(parameter: Parameter) -> Seq<char> {
    match parameter.type_ident.qt_type {
        QtTypes::CppObj { rust_type_idents, .. } => "let mut "@ + parameter.ident@ + " = "@
            + sibling_path(rust_type_idents.deep_view(), "CppObj"@) + "::new("@
            + parameter.ident@ + ");\n"@,
        t => if t.spec_is_opaque() {
            "let "@ + mutable_text(parameter.type_ident.is_mut) + parameter.ident@ + " = "@
                + parameter.ident@ + ".to_rust();\n"@
        } else {
            ""@
        },
    }
}

/// A parameter as the wrapper of an invokable hands it on: a converted value keeps the
/// reference and the mutability that the parameter was written with.
pub open spec fn wrapper_output(parameter: Parameter) -> Seq<char> {
    let t = parameter.type_ident.qt_type;
    if t is CppObj || t.spec_is_opaque() {
        reference_text(parameter.type_ident.is_ref) + mutable_text(parameter.type_ident.is_mut)
            + parameter.ident@
    } else {
        parameter.ident@
    }
}

/// The wrapper of an invokable: a method that converts the parameters and calls the
/// invokable itself.
pub open spec fn wrapper_text(invokable: Invokable, ident_wrapper: Seq<char>) -> Seq<char> {
    let parameters = invokable.parameters@;
    "pub fn "@ + ident_wrapper + "(&"@ + mutable_text(invokable.mutable) + "self"@ + concat(
        Seq::new(parameters.len(), |i: int| ", "@ + wrapper_input(parameters[i])),
    ) + ")"@ + (match invokable.return_type {
        Some(t) => " -> "@ + t.qt_type.host_name(),
        None => ""@,
    }) + " {\n"@ + concat(Seq::new(parameters.len(), |i: int| wrapper_statement(parameters[i])))
        + (if invokable.return_type is Some {
        "return "@
    } else {
        ""@
    }) + "self."@ + invokable.ident.rust_ident@ + "("@ + join(
        Seq::new(parameters.len(), |i: int| wrapper_output(parameters[i])),
        ", "@,
    ) + ");\n"@ + "}\n"@
}

/// Writes the path to an item beside another object.
fn write_sibling_path(path: &Vec<String>, name: &str) -> (r: String)
    requires
        path@.len() > 0,
    ensures
        r@ == sibling_path(path.deep_view(), name@),
{
    let mut parts: Vec<String> = Vec::new();
    let mut i: usize = 0;
    while i < path.len() - 1
        invariant
            path@.len() > 0,
            i <= path.len() - 1,
            parts.deep_view() =~= path.deep_view().take(i as int),
        decreases path.len() - i,
    {
        push_string(&mut parts, path[i].clone());
        i += 1;
    }
    assert(path.deep_view().take(path.len() - 1) =~= path.deep_view().drop_last());
    push_string(&mut parts, String::from_str(name));
    join_strings(&parts, "::")
}

/// Writes what the wrapper of an invokable needs of one parameter: how it takes it, how it
/// converts it and how it hands it on.
fn write_wrapper_parameter(param: &Parameter) -> (r: (String, String, String))
    requires
        param.violation() is None,
    ensures
        r.0@ == ", "@ + wrapper_input(*param),
        r.1@ == wrapper_statement(*param),
        r.2@ == wrapper_output(*param),
{
    let param_ident = param.ident.as_str();
    let is_mut = write_mutable(param.type_ident.is_mut);
    let is_ref = write_reference(param.type_ident.is_ref);
    match &param.type_ident.qt_type {
        QtTypes::CppObj { rust_type_idents, .. } => {
            // The C++ object and its wrapper stand beside the object's own type.
            let input = String::from_str(", ").concat(param_ident).concat(
                ": std::pin::Pin<&mut ",
            ).concat(write_sibling_path(rust_type_idents, "FFICppObj").as_str()).concat(">");
            let statement = String::from_str("let mut ").concat(param_ident).concat(
                " = ",
            ).concat(write_sibling_path(rust_type_idents, "CppObj").as_str()).concat(
                "::new(",
            ).concat(param_ident).concat(");\n");
            let output = String::from_str(is_ref).concat(is_mut).concat(param_ident);
            assert(input@ =~= ", "@ + wrapper_input(*param));
            (input, statement, output)
        },
        _ => {
            let param_type = param.type_ident.qt_type.cxx_qt_lib_type();
            let input = String::from_str(", ").concat(param_ident).concat(": ").concat(
                is_ref,
            ).concat(is_mut).concat(param_type.as_str());
            assert(input@ =~= ", "@ + wrapper_input(*param));
            // An opaque input is turned into its Rust value and keeps its reference and
            // its mutability.
            if param.type_ident.qt_type.is_opaque() {
                let statement = String::from_str("let ").concat(is_mut).concat(
                    param_ident,
                ).concat(" = ").concat(param_ident).concat(".to_rust();\n");
                let output = String::from_str(is_ref).concat(is_mut).concat(param_ident);
                (input, statement, output)
            } else {
                (input, String::from_str(""), String::from_str(param_ident))
            }
        },
    }
}

/// Writes the wrapper of an invokable whose parameters break no rule.
fn write_wrapper(invokable: &Invokable, ident_wrapper: &str) -> (r: String)
    requires
        parameters_violation(invokable.parameters@) is None,
    ensures
        r@ == wrapper_text(*invokable, ident_wrapper@),
{
    proof {
        crate::descriptor::lemma_parameters_valid(invokable.parameters@);
    }
    let ghost parameters = invokable.parameters@;
    let mut input_parameters: Vec<String> = Vec::new();
    let mut output_parameters: Vec<String> = Vec::new();
    let mut wrappers: Vec<String> = Vec::new();
    let mut i: usize = 0;
    while i < invokable.parameters.len()
        invariant
            i <= parameters.len(),
            parameters == invokable.parameters@,
            forall|j: int|
                0 <= j < parameters.len() ==> (#[trigger] parameters[j]).violation() is None,
            input_parameters.deep_view() =~= Seq::new(
                i as nat,
                |j: int| ", "@ + wrapper_input(parameters[j]),
            ),
            wrappers.deep_view() =~= Seq::new(i as nat, |j: int| wrapper_statement(parameters[j])),
            output_parameters.deep_view() =~= Seq::new(
                i as nat,
                |j: int| wrapper_output(parameters[j]),
            ),
        decreases parameters.len() - i,
    {
        assert(parameters[i as int].violation() is None);
        let (input, statement, output) = write_wrapper_parameter(&invokable.parameters[i]);
        push_string(&mut input_parameters, input);
        push_string(&mut wrappers, statement);
        push_string(&mut output_parameters, output);
        i += 1;
    }
    proof {
        assert(input_parameters.deep_view() =~= Seq::new(
            parameters.len(),
            |j: int| ", "@ + wrapper_input(parameters[j]),
        ));
        assert(wrappers.deep_view() =~= Seq::new(
            parameters.len(),
            |j: int| wrapper_statement(parameters[j]),
        ));
        assert(output_parameters.deep_view() =~= Seq::new(
            parameters.len(),
            |j: int| wrapper_output(parameters[j]),
        ));
    }
    // A returned value is of the full Rust type, which the bridge converts.
    let return_type = match &invokable.return_type {
        Some(return_type) => String::from_str(" -> ").concat(
            return_type.qt_type.cxx_qt_lib_type().as_str(),
        ),
        None => String::from_str(""),
    };
    let return_word = if invokable.return_type.is_some() {
        "return "
    } else {
        ""
    };
    String::from_str("pub fn ").concat(ident_wrapper).concat("(&").concat(
        write_mutable(invokable.mutable),
    ).concat("self").concat(concat_strings(&input_parameters).as_str()).concat(")").concat(
        return_type.as_str(),
    ).concat(" {\n").concat(concat_strings(&wrappers).as_str()).concat(return_word).concat(
        "self.",
    ).concat(invokable.ident.rust_ident.as_str()).concat("(").concat(
        join_strings(&output_parameters, ", ").as_str(),
    ).concat(");\n").concat("}\n")
}

/// Generates the wrapper of an invokable. Nothing is generated where a parameter breaks a
/// rule.
pub fn invokable_generate_wrapper(invokable: &Invokable, ident_wrapper: &str) -> (r: Result<
    String,
    GenerationError,
>)
    ensures
        match r {
            Ok(text) => parameters_violation(invokable.parameters@) is None && text@
                == wrapper_text(*invokable, ident_wrapper@),
            Err(GenerationError::Descriptor(violation)) => parameters_violation(
                invokable.parameters@,
            ) == Some(violation),
            Err(GenerationError::Syntax(_)) => false,
        },
{
    match check_parameters(invokable.parameters.as_slice()) {
        Some(violation) => Err(GenerationError::Descriptor(violation)),
        None => Ok(write_wrapper(invokable, ident_wrapper)),
    }
}

/// The positions of the first `n` properties that are stored in the data struct: those
/// that are not kept by pointer, which C++ stores.
pub open spec fn kept_fields(properties: Seq<Property>, n: int) -> Seq<int>
    decreases n,
{
    if n <= 0 {
        Seq::empty()
    } else {
        let before = kept_fields(properties, n - 1);
        if properties[n - 1].type_ident.qt_type is CppObj {
            before
        } else {
            before.push(n - 1)
        }
    }
}

/// The positions of the fields of the data struct that stay in it. A field belongs to the
/// property at its position; fields without a property and properties without a field are
/// left out.
pub open spec fn data_fields(obj: ObjectDescriptor) -> Seq<int> {
    kept_fields(
        obj.properties@,
        if obj.properties@.len() <= obj.original_data_struct.fields@.len() {
            obj.properties@.len() as int
        } else {
            obj.original_data_struct.fields@.len() as int
        },
    )
}

/// The texts of the fields at the given positions.
pub open spec fn kept_field_texts(fields: Seq<Field>, kept: Seq<int>) -> Seq<Seq<char>> {
    Seq::new(kept.len(), |i: int| fields[kept[i]].text@)
}

/// The initialisers of the data struct from the wrapper of the C++ object: one for each
/// kept field that has a name.
pub open spec fn fields_into(fields: Seq<Field>, kept: Seq<int>, value_ident: Seq<char>) -> Seq<
    Seq<char>,
>
    decreases kept.len(),
{
    if kept.len() == 0 {
        Seq::empty()
    } else {
        let before = fields_into(fields, kept.drop_last(), value_ident);
        match fields[kept.last()].ident {
            Some(name) => before.push(
                name@ + ": "@ + value_ident + "."@ + name@ + "().into()"@,
            ),
            None => before,
        }
    }
}

/// The statement that sets one property from the field of the data struct.
pub open spec fn grab_value(qt_type: QtTypes, name: Seq<char>) -> Seq<char> {
    if qt_type.spec_is_opaque() {
        "self.set_"@ + name + "(data."@ + name + ".as_ref().unwrap());\n"@
    } else {
        "self.set_"@ + name + "("@ + reference_text(qt_type.spec_is_ref()) + "data."@ + name
            + ");\n"@
    }
}

/// The statements that set the properties from the data struct: one for each kept field
/// that has a name.
pub open spec fn grab_values(properties: Seq<Property>, fields: Seq<Field>, kept: Seq<int>) -> Seq<
    Seq<char>,
>
    decreases kept.len(),
{
    if kept.len() == 0 {
        Seq::empty()
    } else {
        let before = grab_values(properties, fields, kept.drop_last());
        match fields[kept.last()].ident {
            Some(name) => before.push(
                grab_value(properties[kept.last()].type_ident.qt_type, name@),
            ),
            None => before,
        }
    }
}

/// The name of the parameter of the conversions into the data struct: it is marked as
/// unused where no field is kept.
pub open spec fn value_ident_text(kept: Seq<int>) -> Seq<char> {
    if kept.len() == 0 {
        "_value"@
    } else {
        "value"@
    }
}

/// The two conversions from the wrapper of the C++ object into the data struct.
pub open spec fn data_struct_impl(obj: ObjectDescriptor) -> Seq<char> {
    let name = obj.original_data_struct.ident@;
    let value = value_ident_text(data_fields(obj));
    "impl<'a> From<&CppObj<'a>> for "@ + name + " {\n"@ + "fn from("@ + value
        + ": &CppObj<'a>) -> Self {\n"@ + "Self {\n"@ + join(
        fields_into(obj.original_data_struct.fields@, data_fields(obj), value),
        ",\n"@,
    ) + "\n"@ + "}\n"@ + "}\n"@ + "}\n"@ + "\n"@ + "impl<'a> From<&mut CppObj<'a>> for "@ + name
        + " {\n"@ + "fn from("@ + value + ": &mut CppObj<'a>) -> Self {\n"@ + "Self::from(&*"@
        + value + ")\n"@ + "}\n"@ + "}\n"@
}

/// The wrappers of the invokables that have one, in the order of the invokables.
pub open spec fn invokable_wrappers(invokables: Seq<Invokable>) -> Seq<Seq<char>>
    decreases invokables.len(),
{
    if invokables.len() == 0 {
        Seq::empty()
    } else {
        let before = invokable_wrappers(invokables.drop_last());
        match invokables.last().ident_wrapper {
            Some(wrapper) => before.push(wrapper_text(invokables.last(), wrapper.rust_ident@)),
            None => before,
        }
    }
}

/// The invokables as they were written.
pub open spec fn original_methods(invokables: Seq<Invokable>) -> Seq<Seq<char>> {
    Seq::new(invokables.len(), |i: int| invokables[i].original_method@)
}

/// The method that wraps the C++ object and hands an update request to the handler; nothing
/// where the object does not ask for the update-request hook.
pub open spec fn handle_update_request_method(handles_updates: bool) -> Seq<char> {
    if handles_updates {
        "pub fn call_handle_update_request(&mut self, cpp: std::pin::Pin<&mut FFICppObj>) {\n"@
            + "let mut cpp = CppObj::new(cpp);\n"@ + "self.handle_update_request(&mut cpp);\n"@
            + "}\n"@
    } else {
        ""@
    }
}

/// The methods of the Rust struct: the wrappers of the invokables, the invokables, the
/// other methods, and the method of the update-request hook.
pub open spec fn rust_struct_impl(obj: ObjectDescriptor) -> Seq<char> {
    "impl "@ + obj.original_rust_struct.ident@ + " {\n"@ + concat(
        invokable_wrappers(obj.invokables@),
    ) + lines(original_methods(obj.invokables@)) + lines(obj.methods.deep_view())
        + handle_update_request_method(obj.handles_updates()) + "}\n"@
}

/// The struct that wraps the pinned C++ object.
pub open spec fn wrapper_struct() -> Seq<char> {
    "pub struct CppObj<'a> {\n"@ + "cpp: std::pin::Pin<&'a mut FFICppObj>,\n"@ + "}\n"@
}

/// The method that hands out an update requester; nothing where the object does not ask
/// for the update-request hook.
pub open spec fn update_requester_method(handles_updates: bool) -> Seq<char> {
    if handles_updates {
        "pub fn update_requester(&mut self) -> cxx_qt_lib::UpdateRequester {\n"@
            + "cxx_qt_lib::UpdateRequester::from_unique_ptr(self.cpp.as_mut().update_requester())\n"@
            + "}\n"@
    } else {
        ""@
    }
}

/// The methods of the wrapper of the C++ object: its constructor, the methods of the
/// properties and of the signals, the method of the update-request hook, and the method
/// that sets the properties from the data struct.
pub open spec fn wrapper_struct_impl(obj: ObjectDescriptor) -> Seq<char> {
    "impl<'a> CppObj<'a> {\n"@ + "pub fn new(cpp: std::pin::Pin<&'a mut FFICppObj>) -> Self {\n"@
        + "Self { cpp }\n"@ + "}\n"@ + concat(properties_methods_rs(obj.properties@)) + concat(
        signal_methods(obj),
    ) + update_requester_method(obj.handles_updates())
        + "pub fn grab_values_from_data(&mut self, mut data: "@ + obj.original_data_struct.ident@
        + ") {\n"@ + concat(
        grab_values(obj.properties@, obj.original_data_struct.fields@, data_fields(obj)),
    ) + "}\n"@ + "}\n"@
}

/// An item that may be missing, closed by a line break where it is there.
pub open spec fn optional_line(item: Option<String>) -> Seq<char> {
    match item {
        Some(text) => text@ + "\n"@,
        None => ""@,
    }
}

/// The import of the trait of the update-request hook; nothing where the object does not
/// ask for it.
pub open spec fn use_traits(handles_updates: bool) -> Seq<char> {
    if handles_updates {
        "use cxx_qt_lib::UpdateRequestHandler;\n"@
    } else {
        ""@
    }
}

/// All fields of a struct, as texts.
pub open spec fn all_field_texts(fields: Seq<Field>) -> Seq<Seq<char>> {
    Seq::new(fields.len(), |i: int| fields[i].text@)
}

/// The items of the module that holds the Rust side of an object.
pub open spec fn module_contents(obj: ObjectDescriptor) -> Seq<char> {
    use_traits(obj.handles_updates()) + optional_line(obj.original_signal_enum) + struct_text(
        obj.original_rust_struct,
        all_field_texts(obj.original_rust_struct.fields@),
    ) + rust_struct_impl(obj) + wrapper_struct() + wrapper_struct_impl(obj) + struct_text(
        obj.original_data_struct,
        kept_field_texts(obj.original_data_struct.fields@, data_fields(obj)),
    ) + data_struct_impl(obj) + optional_line(obj.handle_updates_impl) + lines(
        obj.original_passthrough_decls.deep_view(),
    )
}

/// All that is written into the generated Rust text of an object.
pub open spec fn rust_blocks(obj: ObjectDescriptor) -> RustBlocksText {
    RustBlocksText {
        cxx_mod: bridge_text(obj),
        cxx_mod_ident: obj.original_mod.ident@,
        cxx_qt_mod_contents: module_contents(obj),
        cpp_struct_ident: cpp_class_ident(obj),
        namespace: obj.namespace@,
        rust_struct_ident: obj.ident@,
    }
}

/// The module in which the items of the Rust side are checked.
pub open spec fn contents_module(contents: Seq<char>) -> Seq<char> {
    "mod fake {\n"@ + contents + "}\n"@
}

/// Puts the items of the Rust side into the module in which they are checked.
pub fn write_contents_module(contents: &str) -> (r: String)
    ensures
        r@ == contents_module(contents@),
{
    String::from_str("mod fake {\n").concat(contents).concat("}\n")
}

/// Finds the positions of the fields of the data struct that stay in it.
fn find_data_fields(obj: &ObjectDescriptor) -> (r: Vec<usize>)
    ensures
        r@.len() == data_fields(*obj).len(),
        forall|i: int| 0 <= i < r@.len() ==> (#[trigger] r@[i]) as int == data_fields(*obj)[i],
        forall|i: int|
            0 <= i < r@.len() ==> (#[trigger] r@[i]) < obj.properties@.len() && r@[i]
                < obj.original_data_struct.fields@.len(),
{
    let n = if obj.properties.len() <= obj.original_data_struct.fields.len() {
        obj.properties.len()
    } else {
        obj.original_data_struct.fields.len()
    };
    let mut kept: Vec<usize> = Vec::new();
    let mut i: usize = 0;
    while i < n
        invariant
            i <= n,
            n <= obj.properties@.len(),
            n <= obj.original_data_struct.fields@.len(),
            kept@.len() == kept_fields(obj.properties@, i as int).len(),
            forall|j: int|
                0 <= j < kept@.len() ==> (#[trigger] kept@[j]) as int == kept_fields(
                    obj.properties@,
                    i as int,
                )[j],
            forall|j: int| 0 <= j < kept@.len() ==> (#[trigger] kept@[j]) < i,
        decreases n - i,
    {
        match &obj.properties[i].type_ident.qt_type {
            QtTypes::CppObj { .. } => {},
            _ => {
                kept.push(i);
            },
        }
        i += 1;
    }
    kept
}

/// Builds the data struct without the fields that C++ stores.
fn write_data_struct(obj: &ObjectDescriptor, kept: &Vec<usize>) -> (r: String)
    requires
        kept@.len() == data_fields(*obj).len(),
        forall|i: int|
            0 <= i < kept@.len() ==> (#[trigger] kept@[i]) as int == data_fields(*obj)[i],
        forall|i: int|
            0 <= i < kept@.len() ==> (#[trigger] kept@[i]) < obj.original_data_struct.fields@.len(),
    ensures
        r@ == struct_text(
            obj.original_data_struct,
            kept_field_texts(obj.original_data_struct.fields@, data_fields(*obj)),
        ),
{
    let mut new_fields: Vec<&Field> = Vec::new();
    let mut i: usize = 0;
    while i < kept.len()
        invariant
            i <= kept.len(),
            kept@.len() == data_fields(*obj).len(),
            forall|j: int|
                0 <= j < kept@.len() ==> (#[trigger] kept@[j]) as int == data_fields(*obj)[j],
            forall|j: int|
                0 <= j < kept@.len() ==> (#[trigger] kept@[j])
                    < obj.original_data_struct.fields@.len(),
            new_fields@.len() == i,
            forall|j: int|
                0 <= j < i ==> *(#[trigger] new_fields@[j])
                    == obj.original_data_struct.fields@[data_fields(*obj)[j]],
        decreases kept.len() - i,
    {
        let k = kept[i];
        new_fields.push(&obj.original_data_struct.fields[k]);
        i += 1;
    }
    assert(field_texts(new_fields@) =~= kept_field_texts(
        obj.original_data_struct.fields@,
        data_fields(*obj),
    ));
    build_struct_with_fields(&obj.original_data_struct, &new_fields)
}

/// Builds the Rust struct with all its fields.
fn write_rust_struct(obj: &ObjectDescriptor) -> (r: String)
    ensures
        r@ == struct_text(
            obj.original_rust_struct,
            all_field_texts(obj.original_rust_struct.fields@),
        ),
{
    let mut new_fields: Vec<&Field> = Vec::new();
    let mut i: usize = 0;
    while i < obj.original_rust_struct.fields.len()
        invariant
            i <= obj.original_rust_struct.fields@.len(),
            new_fields@.len() == i,
            forall|j: int|
                0 <= j < i ==> *(#[trigger] new_fields@[j]) == obj.original_rust_struct.fields@[j],
        decreases obj.original_rust_struct.fields@.len() - i,
    {
        new_fields.push(&obj.original_rust_struct.fields[i]);
        i += 1;
    }
    assert(field_texts(new_fields@) =~= all_field_texts(obj.original_rust_struct.fields@));
    build_struct_with_fields(&obj.original_rust_struct, &new_fields)
}

/// Writes the initialisers of the data struct and the statements that set the properties
/// from it.
fn write_data_conversions(obj: &ObjectDescriptor, kept: &Vec<usize>, value_ident: &str) -> (r: (
    Vec<String>,
    Vec<String>,
))
    requires
        kept@.len() == data_fields(*obj).len(),
        forall|i: int|
            0 <= i < kept@.len() ==> (#[trigger] kept@[i]) as int == data_fields(*obj)[i],
        forall|i: int|
            0 <= i < kept@.len() ==> (#[trigger] kept@[i]) < obj.properties@.len() && kept@[i]
                < obj.original_data_struct.fields@.len(),
    ensures
        r.0.deep_view() == fields_into(
            obj.original_data_struct.fields@,
            data_fields(*obj),
            value_ident@,
        ),
        r.1.deep_view() == grab_values(
            obj.properties@,
            obj.original_data_struct.fields@,
            data_fields(*obj),
        ),
{
    let ghost all = data_fields(*obj);
    let ghost fields = obj.original_data_struct.fields@;
    let mut into: Vec<String> = Vec::new();
    let mut grab: Vec<String> = Vec::new();
    let mut i: usize = 0;
    assert(into.deep_view() =~= fields_into(fields, all.take(0), value_ident@));
    assert(grab.deep_view() =~= grab_values(obj.properties@, fields, all.take(0)));
    while i < kept.len()
        invariant
            i <= kept.len(),
            all == data_fields(*obj),
            fields == obj.original_data_struct.fields@,
            kept@.len() == all.len(),
            forall|j: int| 0 <= j < kept@.len() ==> (#[trigger] kept@[j]) as int == all[j],
            forall|j: int|
                0 <= j < kept@.len() ==> (#[trigger] kept@[j]) < obj.properties@.len() && kept@[j]
                    < fields.len(),
            into.deep_view() =~= fields_into(fields, all.take(i as int), value_ident@),
            grab.deep_view() =~= grab_values(obj.properties@, fields, all.take(i as int)),
        decreases kept.len() - i,
    {
        let k = kept[i];
        proof {
            let seen = all.take(i + 1);
            assert(seen.drop_last() =~= all.take(i as int));
            assert(seen.last() == k as int);
        }
        let field = &obj.original_data_struct.fields[k];
        let qt_type = &obj.properties[k].type_ident.qt_type;
        match &field.ident {
            Some(field_name) => {
                let name = field_name.as_str();
                // The data struct holds types that convert from what the getters return.
                push_string(
                    &mut into,
                    String::from_str(name).concat(": ").concat(value_ident).concat(".").concat(
                        name,
                    ).concat("().into()"),
                );
                let statement = if qt_type.is_opaque() {
                    String::from_str("self.set_").concat(name).concat("(data.").concat(
                        name,
                    ).concat(".as_ref().unwrap());\n")
                } else {
                    String::from_str("self.set_").concat(name).concat("(").concat(
                        write_reference(qt_type.is_ref()),
                    ).concat("data.").concat(name).concat(");\n")
                };
                push_string(&mut grab, statement);
            },
            None => {},
        }
        i += 1;
    }
    proof {
        assert(all.take(all.len() as int) =~= all);
    }
    (into, grab)
}

/// Writes the wrappers of the invokables that have one.
fn write_invokable_wrappers(invokables: &Vec<Invokable>) -> (r: Vec<String>)
    requires
        crate::descriptor::invokables_violation(invokables@) is None,
    ensures
        r.deep_view() == invokable_wrappers(invokables@),
{
    proof {
        crate::descriptor::lemma_invokables_valid(invokables@);
    }
    let mut wrappers: Vec<String> = Vec::new();
    let mut i: usize = 0;
    assert(wrappers.deep_view() =~= invokable_wrappers(invokables@.take(0)));
    while i < invokables.len()
        invariant
            i <= invokables.len(),
            forall|j: int|
                0 <= j < invokables@.len() ==> parameters_violation(
                    (#[trigger] invokables@[j]).parameters@,
                ) is None,
            wrappers.deep_view() =~= invokable_wrappers(invokables@.take(i as int)),
        decreases invokables.len() - i,
    {
        proof {
            let seen = invokables@.take(i + 1);
            assert(seen.drop_last() =~= invokables@.take(i as int));
            assert(seen.last() == invokables@[i as int]);
            assert(parameters_violation(invokables@[i as int].parameters@) is None);
        }
        let invokable = &invokables[i];
        match &invokable.ident_wrapper {
            Some(ident_wrapper) => {
                push_string(
                    &mut wrappers,
                    write_wrapper(invokable, ident_wrapper.rust_ident.as_str()),
                );
            },
            None => {},
        }
        i += 1;
    }
    proof {
        assert(invokables@.take(invokables@.len() as int) =~= invokables@);
    }
    wrappers
}

/// Collects the invokables as they were written.
fn collect_original_methods(invokables: &Vec<Invokable>) -> (r: Vec<String>)
    ensures
        r.deep_view() == original_methods(invokables@),
{
    let mut methods: Vec<String> = Vec::new();
    let mut i: usize = 0;
    while i < invokables.len()
        invariant
            i <= invokables.len(),
            methods.deep_view() =~= original_methods(invokables@.take(i as int)),
        decreases invokables.len() - i,
    {
        push_string(&mut methods, invokables[i].original_method.clone());
        i += 1;
    }
    proof {
        assert(invokables@.take(invokables@.len() as int) =~= invokables@);
    }
    methods
}

/// Writes an item that may be missing.
fn write_optional_line(item: &Option<String>) -> (r: String)
    ensures
        r@ == optional_line(*item),
{
    match item {
        Some(text) => String::from_str(text.as_str()).concat("\n"),
        None => String::from_str(""),
    }
}

/// Writes the items of the module that holds the Rust side of an object.
fn write_module_contents(obj: &ObjectDescriptor) -> (r: String)
    requires
        invokables_violation(obj.invokables@) is None,
    ensures
        r@ == module_contents(*obj),
{
    let handles_updates = obj.handle_updates_impl.is_some();
    let data_struct_name = obj.original_data_struct.ident.as_str();

    // The fields that are no pointers stay in the data struct: C++ stores the others.
    let kept = find_data_fields(obj);
    let data_struct = write_data_struct(obj, &kept);
    // Without a kept field the value is unused.
    let value_ident = if kept.len() == 0 {
        "_value"
    } else {
        "value"
    };
    assert(value_ident@ == value_ident_text(data_fields(*obj)));
    let (into, grab) = write_data_conversions(obj, &kept, value_ident);
    let data_struct_impl = String::from_str("impl<'a> From<&CppObj<'a>> for ").concat(
        data_struct_name,
    ).concat(" {\n").concat("fn from(").concat(value_ident).concat(
        ": &CppObj<'a>) -> Self {\n",
    ).concat("Self {\n").concat(join_strings(&into, ",\n").as_str()).concat("\n").concat(
        "}\n",
    ).concat("}\n").concat("}\n").concat("\n").concat(
        "impl<'a> From<&mut CppObj<'a>> for ",
    ).concat(data_struct_name).concat(" {\n").concat("fn from(").concat(value_ident).concat(
        ": &mut CppObj<'a>) -> Self {\n",
    ).concat("Self::from(&*").concat(value_ident).concat(")\n").concat("}\n").concat("}\n");

    let property_methods = write_property_methods(&obj.properties);
    let signal_methods = write_signal_methods(obj);

    let handle_update_request = if handles_updates {
        String::from_str(
            "pub fn call_handle_update_request(&mut self, cpp: std::pin::Pin<&mut FFICppObj>) {\n",
        ).concat("let mut cpp = CppObj::new(cpp);\n").concat(
            "self.handle_update_request(&mut cpp);\n",
        ).concat("}\n")
    } else {
        String::from_str("")
    };
    let rust_struct_impl = String::from_str("impl ").concat(
        obj.original_rust_struct.ident.as_str(),
    ).concat(" {\n").concat(
        concat_strings(&write_invokable_wrappers(&obj.invokables)).as_str(),
    ).concat(write_lines(&collect_original_methods(&obj.invokables)).as_str()).concat(
        write_lines(&obj.methods).as_str(),
    ).concat(handle_update_request.as_str()).concat("}\n");

    // The struct that wraps the C++ object with a nicer interface.
    let wrapper_struct = String::from_str("pub struct CppObj<'a> {\n").concat(
        "cpp: std::pin::Pin<&'a mut FFICppObj>,\n",
    ).concat("}\n");
    let update_requester = if handles_updates {
        String::from_str(
            "pub fn update_requester(&mut self) -> cxx_qt_lib::UpdateRequester {\n",
        ).concat(
            "cxx_qt_lib::UpdateRequester::from_unique_ptr(self.cpp.as_mut().update_requester())\n",
        ).concat("}\n")
    } else {
        String::from_str("")
    };
    let wrapper_struct_impl = String::from_str("impl<'a> CppObj<'a> {\n").concat(
        "pub fn new(cpp: std::pin::Pin<&'a mut FFICppObj>) -> Self {\n",
    ).concat("Self { cpp }\n").concat("}\n").concat(
        concat_strings(&property_methods).as_str(),
    ).concat(concat_strings(&signal_methods).as_str()).concat(
        update_requester.as_str(),
    ).concat("pub fn grab_values_from_data(&mut self, mut data: ").concat(
        data_struct_name,
    ).concat(") {\n").concat(concat_strings(&grab).as_str()).concat("}\n").concat("}\n");

    let use_traits = if handles_updates {
        "use cxx_qt_lib::UpdateRequestHandler;\n"
    } else {
        ""
    };
    String::from_str(use_traits).concat(
        write_optional_line(&obj.original_signal_enum).as_str(),
    ).concat(write_rust_struct(obj).as_str()).concat(rust_struct_impl.as_str()).concat(
        wrapper_struct.as_str(),
    ).concat(wrapper_struct_impl.as_str()).concat(data_struct.as_str()).concat(
        data_struct_impl.as_str(),
    ).concat(write_optional_line(&obj.handle_updates_impl).as_str()).concat(
        write_lines(&obj.original_passthrough_decls).as_str(),
    )
}

/// Builds all that is written into the generated Rust text of an object. Nothing is built
/// where the description breaks a rule.
pub fn generate_rust_blocks(obj: &ObjectDescriptor) -> (r: Result<
    GeneratedRustBlocks,
    GenerationError,
>)
    ensures
        match r {
            Ok(generated) => obj.rust_violation() is None && generated@ == rust_blocks(*obj),
            Err(GenerationError::Descriptor(violation)) => obj.rust_violation() == Some(violation),
            Err(GenerationError::Syntax(_)) => false,
        },
{
    let cxx_block = match qobject_cxx_text(obj) {
        Ok(cxx_block) => cxx_block,
        Err(error) => {
            return Err(error);
        },
    };
    Ok(
        GeneratedRustBlocks {
            cxx_mod: cxx_block,
            cxx_mod_ident: obj.original_mod.ident.clone(),
            cxx_qt_mod_contents: write_module_contents(obj),
            cpp_struct_ident: String::from_str(obj.ident.as_str()).concat("Qt"),
            namespace: obj.namespace.clone(),
            rust_struct_ident: obj.ident.clone(),
        },
    )
}

/// Decides on the generated Rust text once its two modules were checked: where the bridge
/// is no module, its error comes back; else where the items of the Rust side are no
/// module, their error; else the whole text.
pub fn checked_rust_module(
    generated: &GeneratedRustBlocks,
    bridge_error: Option<String>,
    contents_error: Option<String>,
) -> (r: Result<String, GenerationError>)
    ensures
        match (bridge_error, contents_error) {
            (Some(message), _) => r matches Err(GenerationError::Syntax(found)) && found
                == message,
            (None, Some(message)) => r matches Err(GenerationError::Syntax(found)) && found
                == message,
            (None, None) => r matches Ok(text) && text@ == rust_module_text(generated@),
        },
{
    match bridge_error {
        Some(message) => Err(GenerationError::Syntax(message)),
        None => match contents_error {
            Some(message) => Err(GenerationError::Syntax(message)),
            None => Ok(write_rust(generated)),
        },
    }
}

/// Generates all the Rust text that talks to the generated C++ class of an object, and has
/// `syn` check that the bridge and the items of the Rust side are modules. A description
/// that breaks a rule of the Rust side is refused before anything is written. For any
/// other description the texts that are checked are `bridge_text`, which
/// `generate_rust_blocks` builds, and `contents_module` of `module_contents`, which
/// `write_contents_module` builds; what comes back where the checks find no error is
/// `rust_module_text`.
pub fn generate_qobject_rs(obj: &ObjectDescriptor) -> (r: Result<String, GenerationError>)
    ensures
        match r {
            Ok(text) => obj.rust_violation() is None && text@ == rust_module_text(rust_blocks(*obj)),
            Err(GenerationError::Descriptor(violation)) => obj.rust_violation() == Some(violation),
            Err(GenerationError::Syntax(_)) => obj.rust_violation() is None,
        },
{
    let generated = match generate_rust_blocks(obj) {
        Ok(generated) => generated,
        Err(error) => {
            return Err(error);
        },
    };
    let bridge_error = module_syntax_error(generated.cxx_mod.as_str());
    let fake = write_contents_module(generated.cxx_qt_mod_contents.as_str());
    let contents_error = module_syntax_error(fake.as_str());
    checked_rust_module(&generated, bridge_error, contents_error)
}

/// Inside the bridge the two declarations of a signal differ in how they pass an opaque
/// value, by reference at once and behind a `UniquePtr` through the event queue, and agree
/// on a value of any other type. An owning handle of a value that is not opaque is left
/// out: it is a reference at once and the plain value through the event queue.
pub proof fn lemma_bridge_signal_conventions(t: QtTypes)
    requires
        t is UniquePtr ==> t.spec_is_opaque(),
    ensures
        t.spec_is_opaque() ==> bridge_immediate_type(t) == "&"@ + t.boundary_name()
            && bridge_queued_type(t) == "UniquePtr<"@ + t.boundary_name() + ">"@,
        !t.spec_is_opaque() ==> bridge_immediate_type(t) == bridge_queued_type(t),
{
    reveal_strlit("");
    crate::types::lemma_mapping_rules(t);
    if !t.spec_is_opaque() {
        assert(bridge_immediate_type(t) =~= bridge_queued_type(t));
    }
}

/// The accessors that the bridge declares for a property are the ones that the class
/// defines and that the methods of the Rust side call: the bridge declares the getter under
/// the C++ name that the class registers for reading and defines, and under the Rust name
/// that the getter of the Rust side calls; the setter likewise.
pub proof fn lemma_bridge_accessors(class_cpp: Seq<char>, property: Property)
    ensures
        bridge_property(class_cpp, property) == "#[rust_name = "@ + string_literal(
            rust_name(property.getter),
        ) + "]\n"@ + "fn "@ + cpp_name(property.getter) + "(self: &"@ + class_cpp + ") -> "@
            + bridge_property_type(property) + ";\n"@ + "#[rust_name = "@ + string_literal(
            rust_name(property.setter),
        ) + "]\n"@ + "fn "@ + cpp_name(property.setter) + "(self: Pin<&mut "@ + class_cpp
            + ">, value: "@ + bridge_property_type(property) + ");\n"@,
        crate::gen_cpp::property_getter_header(property)
            == crate::gen_cpp::property_getter_type(property) + " "@ + cpp_name(property.getter)
            + "() const;"@,
        crate::gen_cpp::property_setter_header(property) == "void "@ + cpp_name(property.setter)
            + "("@ + crate::gen_cpp::property_setter_parameter(property) + ");"@,
        !(property.type_ident.qt_type is CppObj) ==> property_getter_method(property)
            == "pub fn "@ + rust_name(property.getter) + "(&self) -> "@ + property_rust_type(
            property,
        ) + " {\n"@ + "self.cpp."@ + rust_name(property.getter) + "()\n"@ + "}\n"@,
{
}

/// Every property has exactly two methods on the Rust side, at its own position: the pair
/// that moves ownership for a property that is kept by pointer, getter and setter for any
/// other.
pub proof fn lemma_property_methods_count(properties: Seq<Property>)
    ensures
        properties_methods_rs(properties).len() == 2 * properties.len(),
        forall|i: int|
            0 <= i < properties.len() ==> properties_methods_rs(properties)[2 * i]
                == property_methods(#[trigger] properties[i])[0] && properties_methods_rs(
                properties,
            )[2 * i + 1] == property_methods(properties[i])[1],
    decreases properties.len(),
{
    if properties.len() > 0 {
        let before = properties.drop_last();
        lemma_property_methods_count(before);
        assert forall|i: int| 0 <= i < properties.len() implies properties_methods_rs(
            properties,
        )[2 * i] == property_methods(#[trigger] properties[i])[0] && properties_methods_rs(
            properties,
        )[2 * i + 1] == property_methods(properties[i])[1] by {
            if i < before.len() {
                assert(properties[i] == before[i]);
            }
        }
    }
}

} // verus!
