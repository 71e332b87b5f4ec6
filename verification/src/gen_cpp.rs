use crate::descriptor::{
    check_properties, cpp_name, cpp_name_of, properties_violation, GenerationError, Invokable,
    ObjectDescriptor, Parameter, Property, Signal, Violation,
};
use crate::generator::{
    append_header_pairs, append_source_pairs, append_strings, header_pairs, push_pair,
    source_pairs, CppBlocksText, CppFragmentPair, FragmentText, GeneratedCppBlocks,
};
use crate::naming::{
    namespace_internals_text, write_namespace_internals, pascal_case, snake_case, to_pascal_case,
    to_snake_case,
};
use crate::text::{join, join_strings, push_string};
use crate::writer_cpp::{header_text, source_text, write_cpp};
use crate::types::{lemma_mapping_rules, QtTypes};
use vstd::prelude::*;

verus! {

/// A C++ parameter: a name together with a type.
#[derive(Debug)]
pub struct CppParameter<'a> {
    /// The name of the parameter.
    pub ident: String,
    /// The type of the parameter.
    pub type_ident: &'a QtTypes,
}

/// A C++ invokable with its header and source parts.
#[derive(Debug)]
pub struct CppInvokable {
    /// The declaration of the invokable.
    pub header: String,
    /// The definition of the invokable.
    pub source: String,
}

/// A C++ property with its header and source parts.
#[derive(Debug)]
pub struct CppProperty {
    /// The members that the property needs.
    pub header_members: Vec<String>,
    /// The registration of the property with the meta-object system.
    pub header_meta: Vec<String>,
    /// The public methods of the property.
    pub header_public: Vec<String>,
    /// The signals of the property.
    pub header_signals: Vec<String>,
    /// The slots of the property.
    pub header_slots: Vec<String>,
    /// The definitions of the property's methods.
    pub source: Vec<String>,
}

/// The header and the source of a C++ class.
#[derive(Debug)]
pub struct CppObject {
    /// The header of the class.
    pub header: String,
    /// The source of the class.
    pub source: String,
}

/// A C++ signal with its header and source parts.
#[derive(Debug)]
pub struct CppSignal {
    /// The public methods that the signal defines.
    pub header_public: Vec<String>,
    /// The signals that the signal defines.
    pub header_signals: Vec<String>,
    /// The definition of the method that emits through the event queue.
    pub source: String,
}

/// The name under which a parameter is known in C++: a parameter that stands for the object
/// itself is called `this`.
pub open spec fn parameter_ident_text(parameter: Parameter) -> Seq<char> {
    if parameter.type_ident.qt_type.spec_is_this() {
        "this"@
    } else {
        parameter.ident@
    }
}

/// A parameter as it is declared in C++: const part, type, reference and pointer part, name.
pub open spec fn parameter_arg_text(parameter: Parameter) -> Seq<char> {
    let t = parameter.type_ident.qt_type;
    t.const_text() + " "@ + t.native_name() + t.ref_text() + t.ptr_text() + " "@
        + parameter_ident_text(parameter)
}

/// A parameter as it is handed on in a call: a pinned object is dereferenced.
pub open spec fn parameter_name_text(parameter: Parameter) -> Seq<char> {
    if parameter.type_ident.qt_type.spec_is_pin() {
        "*"@ + parameter_ident_text(parameter)
    } else {
        parameter_ident_text(parameter)
    }
}

/// The declared parameters of an invokable: all but those that stand for the object itself.
pub open spec fn invokable_args(parameters: Seq<Parameter>) -> Seq<Seq<char>>
    decreases parameters.len(),
{
    if parameters.len() == 0 {
        Seq::empty()
    } else {
        let before = invokable_args(parameters.drop_last());
        if parameters.last().type_ident.qt_type.spec_is_this() {
            before
        } else {
            before.push(parameter_arg_text(parameters.last()))
        }
    }
}

/// What an invokable hands on to the Rust method, one entry for each parameter.
pub open spec fn invokable_names(parameters: Seq<Parameter>) -> Seq<Seq<char>> {
    Seq::new(parameters.len(), |i: int| parameter_name_text(parameters[i]))
}

/// The name of the Rust method that an invokable calls: its wrapper, where it has one.
pub open spec fn invokable_target(invokable: Invokable) -> Seq<char> {
    match invokable.ident_wrapper {
        Some(wrapper) => wrapper.cpp_ident@,
        None => invokable.ident.cpp_ident@,
    }
}

/// The call of the Rust method.
pub open spec fn invokable_call(invokable: Invokable) -> Seq<char> {
    "m_rustObj->"@ + invokable_target(invokable) + "("@ + join(
        invokable_names(invokable.parameters@),
        ", "@,
    ) + ")"@
}

/// The C++ type that an invokable returns.
pub open spec fn invokable_return_ident(invokable: Invokable) -> Seq<char> {
    match invokable.return_type {
        Some(return_type) => return_type.qt_type.native_name(),
        None => "void"@,
    }
}

/// The declaration of an invokable.
pub open spec fn invokable_header(invokable: Invokable) -> Seq<char> {
    "Q_INVOKABLE "@ + invokable_return_ident(invokable) + " "@ + invokable.ident.cpp_ident@
        + "("@ + join(invokable_args(invokable.parameters@), ", "@) + ");"@
}

/// The statement inside an invokable: the call, converted and returned where the invokable
/// returns a value. An opaque value comes back from Rust behind a `std::unique_ptr`.
pub open spec fn invokable_statement(invokable: Invokable) -> Seq<char> {
    match invokable.return_type {
        Some(return_type) => "return rust::cxxqtlib1::cxx_qt_convert<"@
            + invokable_return_ident(invokable) + ", "@ + (if return_type.qt_type.spec_is_opaque() {
            "std::unique_ptr<"@ + invokable_return_ident(invokable) + ">"@
        } else {
            invokable_return_ident(invokable)
        }) + ">{}("@ + invokable_call(invokable) + ")"@,
        None => invokable_call(invokable),
    }
}

/// The definition of an invokable: it holds the object's mutex while the Rust method runs.
pub open spec fn invokable_source(struct_ident: Seq<char>, invokable: Invokable) -> Seq<char> {
    invokable_return_ident(invokable) + " "@ + struct_ident + "::"@ + invokable.ident.cpp_ident@
        + "("@ + join(invokable_args(invokable.parameters@), ", "@) + ")\n"@ + "{\n"@
        + "    const std::lock_guard<std::mutex> guard(m_rustObjMutex);\n"@ + "    "@
        + invokable_statement(invokable) + ";\n"@ + "}\n"@
}

/// Gives each Rust parameter its C++ name and its type.
pub fn generate_parameters_cpp(parameters: &[Parameter]) -> (r: Result<
    Vec<CppParameter<'_>>,
    GenerationError,
>)
    ensures
        r matches Ok(items) && items@.len() == parameters@.len() && forall|i: int|
            0 <= i < items@.len() ==> (#[trigger] items@[i]).ident@ == parameter_ident_text(
                parameters@[i],
            ) && *items@[i].type_ident == parameters@[i].type_ident.qt_type,
{
    Ok(name_parameters(parameters))
}

/// Gives each Rust parameter its C++ name and its type.
fn name_parameters(parameters: &[Parameter]) -> (items: Vec<CppParameter<'_>>)
    ensures
        items@.len() == parameters@.len(),
        forall|i: int|
            0 <= i < items@.len() ==> (#[trigger] items@[i]).ident@ == parameter_ident_text(
                parameters@[i],
            ) && *items@[i].type_ident == parameters@[i].type_ident.qt_type,
{
    let mut items: Vec<CppParameter> = Vec::new();
    let mut i: usize = 0;
    while i < parameters.len()
        invariant
            i <= parameters.len(),
            items@.len() == i,
            forall|j: int|
                0 <= j < i ==> (#[trigger] items@[j]).ident@ == parameter_ident_text(
                    parameters@[j],
                ) && *items@[j].type_ident == parameters@[j].type_ident.qt_type,
        decreases parameters.len() - i,
    {
        let parameter = &parameters[i];
        // A pinned object that is `this` is called `this`; the `*` of a definition is added
        // where the names are built.
        let ident = if parameter.type_ident.qt_type.is_this() {
            String::from_str("this")
        } else {
            parameter.ident.clone()
        };
        items.push(CppParameter { ident, type_ident: &parameter.type_ident.qt_type });
        i += 1;
    }
    items
}

/// The declared parameters and the handed-on names of a list of parameters.
fn flatten_parameters(parameters: &[Parameter]) -> (r: (Vec<String>, Vec<String>))
    ensures
        r.0.deep_view() == invokable_args(parameters@),
        r.1.deep_view() == invokable_names(parameters@),
{
    let mut args: Vec<String> = Vec::new();
    let mut names: Vec<String> = Vec::new();
    let items = name_parameters(parameters);
    let mut i: usize = 0;
    assert(args.deep_view() =~= invokable_args(parameters@.take(0)));
    assert(names.deep_view() =~= invokable_names(parameters@.take(0)));
    while i < items.len()
        invariant
            i <= items@.len(),
            items@.len() == parameters@.len(),
            forall|j: int|
                0 <= j < items@.len() ==> (#[trigger] items@[j]).ident@ == parameter_ident_text(
                    parameters@[j],
                ) && *items@[j].type_ident == parameters@[j].type_ident.qt_type,
            args.deep_view() == invokable_args(parameters@.take(i as int)),
            names.deep_view() == invokable_names(parameters@.take(i as int)),
        decreases items.len() - i,
    {
        let parameter = &items[i];
        proof {
            let seen = parameters@.take(i + 1);
            assert(seen.drop_last() =~= parameters@.take(i as int));
            assert(seen.last() == parameters@[i as int]);
            assert(invokable_names(seen) =~= invokable_names(parameters@.take(i as int)).push(
                parameter_name_text(parameters@[i as int]),
            ));
        }
        // A parameter that is `this` is not declared: the definition uses `*this`.
        if !parameter.type_ident.is_this() {
            let arg = String::from_str(parameter.type_ident.as_const_str()).concat(" ").concat(
                parameter.type_ident.type_ident(),
            ).concat(parameter.type_ident.as_ref_str()).concat(
                parameter.type_ident.as_ptr_str(),
            ).concat(" ").concat(parameter.ident.as_str());
            push_string(&mut args, arg);
        }
        // A pinned object is handed on as `*name`.
        let name = if parameter.type_ident.is_pin() {
            String::from_str("*").concat(parameter.ident.as_str())
        } else {
            parameter.ident.clone()
        };
        push_string(&mut names, name);
        i += 1;
    }
    proof {
        assert(parameters@.take(parameters@.len() as int) =~= parameters@);
    }
    (args, names)
}

/// Generates the declaration and the definition of one invokable.
pub fn generate_invokable_cpp(struct_ident: &str, invokable: &Invokable) -> (r: CppInvokable)
    ensures
        r.header@ == invokable_header(*invokable),
        r.source@ == invokable_source(struct_ident@, *invokable),
{
    let (args, names) = flatten_parameters(invokable.parameters.as_slice());
    // The line of arguments is used in the header and in the source.
    let parameter_arg_line = join_strings(&args, ", ");
    let target = match &invokable.ident_wrapper {
        Some(wrapper) => wrapper.cpp_ident.as_str(),
        None => invokable.ident.cpp_ident.as_str(),
    };
    let call = String::from_str("m_rustObj->").concat(target).concat("(").concat(
        join_strings(&names, ", ").as_str(),
    ).concat(")");
    let return_ident = match &invokable.return_type {
        Some(return_type) => return_type.qt_type.type_ident(),
        None => "void",
    };
    let statement = match &invokable.return_type {
        Some(return_type) => {
            let input_type = if return_type.qt_type.is_opaque() {
                String::from_str("std::unique_ptr<").concat(return_ident).concat(">")
            } else {
                String::from_str(return_ident)
            };
            String::from_str("return rust::cxxqtlib1::cxx_qt_convert<").concat(
                return_ident,
            ).concat(", ").concat(input_type.as_str()).concat(">{}(").concat(
                call.as_str(),
            ).concat(")")
        },
        None => call,
    };
    let header = String::from_str("Q_INVOKABLE ").concat(return_ident).concat(" ").concat(
        invokable.ident.cpp_ident.as_str(),
    ).concat("(").concat(parameter_arg_line.as_str()).concat(");");
    let source = String::from_str(return_ident).concat(" ").concat(struct_ident).concat(
        "::",
    ).concat(invokable.ident.cpp_ident.as_str()).concat("(").concat(
        parameter_arg_line.as_str(),
    ).concat(")\n").concat("{\n").concat(
        "    const std::lock_guard<std::mutex> guard(m_rustObjMutex);\n",
    ).concat("    ").concat(statement.as_str()).concat(";\n").concat("}\n");
    CppInvokable { header, source }
}

/// Generates the declaration and the definition of each invokable of a list.
pub fn generate_invokables_cpp(struct_ident: &str, invokables: &[Invokable]) -> (r: Result<
    Vec<CppInvokable>,
    GenerationError,
>)
    ensures
        r matches Ok(items) && items@.len() == invokables@.len() && forall|i: int|
            0 <= i < items@.len() ==> (#[trigger] items@[i]).header@ == invokable_header(
                invokables@[i],
            ) && items@[i].source@ == invokable_source(struct_ident@, invokables@[i]),
{
    let mut items: Vec<CppInvokable> = Vec::new();
    let mut i: usize = 0;
    while i < invokables.len()
        invariant
            i <= invokables.len(),
            items@.len() == i,
            forall|j: int|
                0 <= j < i ==> (#[trigger] items@[j]).header@ == invokable_header(invokables@[j])
                    && items@[j].source@ == invokable_source(struct_ident@, invokables@[j]),
        decreases invokables.len() - i,
    {
        items.push(generate_invokable_cpp(struct_ident, &invokables[i]));
        i += 1;
    }
    Ok(items)
}

/// The member that holds a property.
pub open spec fn property_member(property: Property) -> Seq<char> {
    "m_"@ + property.ident.cpp_ident@
}

/// The member that owns the pointer of a pointer-backed property.
pub open spec fn property_owned_member(pascal: Seq<char>) -> Seq<char> {
    "m_owned"@ + pascal
}

/// The type that a property's getter returns.
pub open spec fn property_getter_type(property: Property) -> Seq<char> {
    let t = property.type_ident.qt_type;
    t.const_text() + " "@ + t.native_name() + t.ptr_text() + t.ref_text()
}

/// The parameter of a property's setter.
pub open spec fn property_setter_parameter(property: Property) -> Seq<char> {
    let t = property.type_ident.qt_type;
    t.const_text() + " "@ + t.native_name() + t.ref_text() + t.ptr_text() + " value"@
}

/// The registration of a property: its type and name with the names of its getter, its
/// setter and its notify signal.
pub open spec fn property_meta(property: Property) -> Seq<char> {
    let t = property.type_ident.qt_type;
    "Q_PROPERTY("@ + t.native_name() + t.ptr_text() + " "@ + property.ident.cpp_ident@
        + " READ "@ + cpp_name(property.getter) + " WRITE "@ + cpp_name(property.setter)
        + " NOTIFY "@ + cpp_name(property.notify) + ")"@
}

/// The declaration of a property's getter.
pub open spec fn property_getter_header(property: Property) -> Seq<char> {
    property_getter_type(property) + " "@ + cpp_name(property.getter) + "() const;"@
}

/// The declaration of a property's notify signal.
pub open spec fn property_notify_header(property: Property) -> Seq<char> {
    "void "@ + cpp_name(property.notify) + "();"@
}

/// The declaration of a property's setter.
pub open spec fn property_setter_header(property: Property) -> Seq<char> {
    "void "@ + cpp_name(property.setter) + "("@ + property_setter_parameter(property) + ");"@
}

/// The declaration of the method that takes the owned pointer out of a property.
pub open spec fn property_take_header(property: Property, pascal: Seq<char>) -> Seq<char> {
    "std::unique_ptr<"@ + property.type_ident.qt_type.native_name() + "> take"@ + pascal + "();"@
}

/// The declaration of the method that gives a property a pointer to own.
pub open spec fn property_give_header(property: Property, pascal: Seq<char>) -> Seq<char> {
    "void give"@ + pascal + "(std::unique_ptr<"@ + property.type_ident.qt_type.native_name()
        + "> value);"@
}

/// The statement that queues a property's notify signal and asserts that this worked.
pub open spec fn property_notify_statement(property: Property, indent: Seq<char>) -> Seq<char> {
    indent + "const auto signalSuccess = QMetaObject::invokeMethod(this, \""@
        + cpp_name(property.notify) + "\", Qt::QueuedConnection);\n"@ + indent
        + "Q_ASSERT(signalSuccess);\n"@
}

/// The definition of a property's getter.
pub open spec fn property_getter_source(struct_ident: Seq<char>, property: Property) -> Seq<
    char,
> {
    property_getter_type(property) + "\n"@ + struct_ident + "::"@ + cpp_name(property.getter)
        + "() const\n"@ + "{\n"@ + "    return "@ + property_member(property) + ";\n"@ + "}\n"@
}

/// The head of the definition of a property's setter.
pub open spec fn property_setter_head(struct_ident: Seq<char>, property: Property) -> Seq<char> {
    "void\n"@ + struct_ident + "::"@ + cpp_name(property.setter) + "("@
        + property_setter_parameter(property) + ")\n"@
}

/// The definition of the setter of a property that is kept by value. Until the object is
/// initialised it stores the value and notifies nobody; afterwards it stores a value that
/// differs from the one it holds and queues the notify signal.
pub open spec fn value_setter_source(struct_ident: Seq<char>, property: Property) -> Seq<char> {
    property_setter_head(struct_ident, property) + "{\n"@ + "    if (!m_initialised) {\n"@
        + "        "@ + property_member(property) + " = value;\n"@ + "        return;\n"@
        + "    }\n"@ + "\n"@ + "    if (value != "@ + property_member(property) + ") {\n"@
        + "        "@ + property_member(property) + " = value;\n"@ + "\n"@
        + property_notify_statement(property, "        "@) + "    }\n"@ + "}\n"@
}

/// The definition of the setter of a property that is kept by pointer. A pointer that
/// differs from the one it holds is stored, and what the property owned is released; the
/// notify signal is queued only once the object is initialised.
pub open spec fn pointer_setter_source(
    struct_ident: Seq<char>,
    property: Property,
    pascal: Seq<char>,
) -> Seq<char> {
    property_setter_head(struct_ident, property) + "{\n"@ + "    if (value != "@
        + property_member(property) + ") {\n"@ + "        if ("@ + property_owned_member(pascal)
        + ") {\n"@ + "            "@ + property_owned_member(pascal) + ".reset();\n"@
        + "        }\n"@ + "\n"@ + "        "@ + property_member(property) + " = value;\n"@
        + "\n"@ + "        if (!m_initialised) {\n"@ + "            return;\n"@
        + "        }\n"@ + "\n"@ + property_notify_statement(property, "        "@)
        + "    }\n"@ + "}\n"@
}

/// The definition of the method that takes the owned pointer out of a property: the
/// property is left unset by a call of its setter.
pub open spec fn property_take_source(
    struct_ident: Seq<char>,
    property: Property,
    pascal: Seq<char>,
) -> Seq<char> {
    "std::unique_ptr<"@ + property.type_ident.qt_type.native_name() + ">\n"@ + struct_ident
        + "::take"@ + pascal + "()\n"@ + "{\n"@ + "  auto value = std::move("@
        + property_owned_member(pascal) + ");\n"@ + "  "@
        + cpp_name(property.setter) + "(nullptr);\n"@ + "  return value;\n"@ + "}\n"@
}

/// The definition of the method that gives a property a pointer to own. It asserts that the
/// pointer is not the one that the property holds already.
pub open spec fn property_give_source(
    struct_ident: Seq<char>,
    property: Property,
    pascal: Seq<char>,
) -> Seq<char> {
    "void\n"@ + struct_ident + "::give"@ + pascal + "(std::unique_ptr<"@
        + property.type_ident.qt_type.native_name() + "> value)\n"@
        + "{\n"@ + "  Q_ASSERT(value.get() != "@ + property_member(property) + ");\n"@ + "\n"@
        + "  "@ + property_owned_member(pascal) + " = std::move(value);\n"@ + "  "@
        + property_member(property) + " = "@ + property_owned_member(pascal) + ".get();\n"@
        + "\n"@ + property_notify_statement(property, "  "@) + "}\n"@
}

/// The members of a property: a raw pointer and its owner, or the value itself.
pub open spec fn property_members(property: Property, pascal: Seq<char>) -> Seq<Seq<char>> {
    let t = property.type_ident.qt_type;
    if property.is_pointer_backed() {
        seq![
            t.native_name() + "* m_"@ + property.ident.cpp_ident@ + " = nullptr;"@,
            "std::unique_ptr<"@ + t.native_name() + "> "@ + property_owned_member(pascal)
                + ";"@,
        ]
    } else {
        seq![t.native_name() + " m_"@ + property.ident.cpp_ident@ + ";"@]
    }
}

/// The public declarations of a property: its getter and, for a pointer, the two methods
/// that move ownership.
pub open spec fn property_public(property: Property, pascal: Seq<char>) -> Seq<Seq<char>> {
    if property.is_pointer_backed() {
        seq![
            property_getter_header(property),
            property_take_header(property, pascal),
            property_give_header(property, pascal),
        ]
    } else {
        seq![property_getter_header(property)]
    }
}

/// The definitions of a property's methods.
pub open spec fn property_sources(
    struct_ident: Seq<char>,
    property: Property,
    pascal: Seq<char>,
) -> Seq<Seq<char>> {
    if property.is_pointer_backed() {
        seq![
            property_getter_source(struct_ident, property) + "\n"@ + pointer_setter_source(
                struct_ident,
                property,
                pascal,
            ),
            property_take_source(struct_ident, property, pascal) + "\n"@ + property_give_source(
                struct_ident,
                property,
                pascal,
            ),
        ]
    } else {
        seq![
            property_getter_source(struct_ident, property) + "\n"@ + value_setter_source(
                struct_ident,
                property,
            ),
        ]
    }
}

/// A generated property holds exactly what the description of the property asks for.
pub open spec fn property_generated(
    struct_ident: Seq<char>,
    property: Property,
    pascal: Seq<char>,
    generated: CppProperty,
) -> bool {
    &&& generated.header_members.deep_view() == property_members(property, pascal)
    &&& generated.header_meta.deep_view() == seq![property_meta(property)]
    &&& generated.header_public.deep_view() == property_public(property, pascal)
    &&& generated.header_signals.deep_view() == seq![property_notify_header(property)]
    &&& generated.header_slots.deep_view() == seq![property_setter_header(property)]
    &&& generated.source.deep_view() == property_sources(struct_ident, property, pascal)
}

/// A vector that holds one string.
fn one_string(s: String) -> (r: Vec<String>)
    ensures
        r.deep_view() == seq![s@],
{
    let mut list: Vec<String> = Vec::new();
    let ghost text = s@;
    list.push(s);
    assert(list.deep_view() =~= seq![text]);
    list
}

/// Builds the statement that queues the notify signal, behind the given indentation.
fn notify_statement(property: &Property, indent: &str) -> (r: String)
    ensures
        r@ == property_notify_statement(*property, indent@),
{
    String::from_str(indent).concat(
        "const auto signalSuccess = QMetaObject::invokeMethod(this, \"",
    ).concat(cpp_name_of(&property.notify)).concat("\", Qt::QueuedConnection);\n").concat(
        indent,
    ).concat("Q_ASSERT(signalSuccess);\n")
}

/// Builds the definition of a property's getter and of its setter.
fn accessor_source(
    struct_ident: &str,
    property: &Property,
    getter_type: &str,
    setter_parameter: &str,
    member_ident: &str,
    member_owned_ident: &str,
    ghost_pascal: Ghost<Seq<char>>,
) -> (r: String)
    requires
        getter_type@ == property_getter_type(*property),
        setter_parameter@ == property_setter_parameter(*property),
        member_ident@ == property_member(*property),
        member_owned_ident@ == property_owned_member(ghost_pascal@),
    ensures
        r@ == property_getter_source(struct_ident@, *property) + "\n"@ + (
        if property.is_pointer_backed() {
            pointer_setter_source(struct_ident@, *property, ghost_pascal@)
        } else {
            value_setter_source(struct_ident@, *property)
        }),
{
    let getter = String::from_str(getter_type).concat("\n").concat(struct_ident).concat(
        "::",
    ).concat(cpp_name_of(&property.getter)).concat("() const\n").concat("{\n").concat(
        "    return ",
    ).concat(member_ident).concat(";\n").concat("}\n");
    let head = String::from_str("void\n").concat(struct_ident).concat("::").concat(
        cpp_name_of(&property.setter),
    ).concat("(").concat(setter_parameter).concat(")\n");
    let notify = notify_statement(property, "        ");
    let setter = if property.type_ident.qt_type.is_ptr() {
        head.concat("{\n").concat("    if (value != ").concat(member_ident).concat(
            ") {\n",
        ).concat("        if (").concat(member_owned_ident).concat(") {\n").concat(
            "            ",
        ).concat(member_owned_ident).concat(".reset();\n").concat("        }\n").concat(
            "\n",
        ).concat("        ").concat(member_ident).concat(" = value;\n").concat("\n").concat(
            "        if (!m_initialised) {\n",
        ).concat("            return;\n").concat("        }\n").concat("\n").concat(
            notify.as_str(),
        ).concat("    }\n").concat("}\n")
    } else {
        head.concat("{\n").concat("    if (!m_initialised) {\n").concat("        ").concat(
            member_ident,
        ).concat(" = value;\n").concat("        return;\n").concat("    }\n").concat(
            "\n",
        ).concat("    if (value != ").concat(member_ident).concat(") {\n").concat(
            "        ",
        ).concat(member_ident).concat(" = value;\n").concat("\n").concat(
            notify.as_str(),
        ).concat("    }\n").concat("}\n")
    };
    let ghost getter_text = getter@;
    let ghost setter_text = setter@;
    let out = getter.concat("\n").concat(setter.as_str());
    assert(out@ == getter_text + "\n"@ + setter_text);
    out
}

/// Builds the definitions of the two methods that move the ownership of a pointer.
fn transfer_source(
    struct_ident: &str,
    property: &Property,
    ident_pascal: &str,
    member_ident: &str,
    member_owned_ident: &str,
) -> (r: String)
    requires
        member_ident@ == property_member(*property),
        member_owned_ident@ == property_owned_member(ident_pascal@),
    ensures
        r@ == property_take_source(struct_ident@, *property, ident_pascal@) + "\n"@
            + property_give_source(struct_ident@, *property, ident_pascal@),
{
    let type_ident = property.type_ident.qt_type.type_ident();
    let take = String::from_str("std::unique_ptr<").concat(type_ident).concat(">\n").concat(
        struct_ident,
    ).concat("::take").concat(ident_pascal).concat("()\n").concat("{\n").concat(
        "  auto value = std::move(",
    ).concat(member_owned_ident).concat(");\n").concat("  ").concat(
        cpp_name_of(&property.setter),
    ).concat("(nullptr);\n").concat("  return value;\n").concat("}\n");
    let notify = notify_statement(property, "  ");
    let give = String::from_str("void\n").concat(struct_ident).concat("::give").concat(
        ident_pascal,
    ).concat("(std::unique_ptr<").concat(type_ident).concat("> value)\n").concat(
        "{\n",
    ).concat("  Q_ASSERT(value.get() != ").concat(member_ident).concat(");\n").concat(
        "\n",
    ).concat("  ").concat(member_owned_ident).concat(" = std::move(value);\n").concat(
        "  ",
    ).concat(member_ident).concat(" = ").concat(member_owned_ident).concat(
        ".get();\n",
    ).concat("\n").concat(notify.as_str()).concat("}\n");
    let ghost take_text = take@;
    let ghost give_text = give@;
    let out = take.concat("\n").concat(give.as_str());
    assert(out@ == take_text + "\n"@ + give_text);
    out
}

/// Generates the header and source parts of one property. The name of the property in
/// Pascal case is given: it names the owning member and the methods that only a pointer
/// has. A property that lacks an accessor is refused.
pub fn generate_property_cpp(struct_ident: &str, property: &Property, ident_pascal: &str) -> (r:
    Result<CppProperty, GenerationError>)
    ensures
        match r {
            Ok(generated) => property.spec_has_accessors() && property_generated(
                struct_ident@,
                *property,
                ident_pascal@,
                generated,
            ),
            Err(GenerationError::Descriptor(violation)) => !property.spec_has_accessors()
                && violation == Violation::MissingAccessor,
            Err(GenerationError::Syntax(_)) => false,
        },
{
    if property.has_accessors() {
        Ok(write_property(struct_ident, property, ident_pascal))
    } else {
        Err(GenerationError::Descriptor(Violation::MissingAccessor))
    }
}

/// Writes the header and source parts of one property.
fn write_property(struct_ident: &str, property: &Property, ident_pascal: &str) -> (r: CppProperty)
    ensures
        property_generated(struct_ident@, *property, ident_pascal@, r),
{
    let qt_type = &property.type_ident.qt_type;
    let ident = property.ident.cpp_ident.as_str();
    let ident_getter = cpp_name_of(&property.getter);
    let ident_setter = cpp_name_of(&property.setter);
    let ident_changed = cpp_name_of(&property.notify);

    // A reference to a pointer makes no sense here, and no type is both.
    proof {
        lemma_mapping_rules(*qt_type);
    }
    assert(!(qt_type.spec_is_ref() && qt_type.spec_is_ptr()));

    let is_const = qt_type.as_const_str();
    let is_ref = qt_type.as_ref_str();
    let is_ptr = qt_type.as_ptr_str();
    let type_ident = qt_type.type_ident();

    let getter_type = String::from_str(is_const).concat(" ").concat(type_ident).concat(
        is_ptr,
    ).concat(is_ref);
    let setter_parameter = String::from_str(is_const).concat(" ").concat(type_ident).concat(
        is_ref,
    ).concat(is_ptr).concat(" value");

    let header_meta = one_string(
        String::from_str("Q_PROPERTY(").concat(type_ident).concat(is_ptr).concat(" ").concat(
            ident,
        ).concat(" READ ").concat(ident_getter).concat(" WRITE ").concat(ident_setter).concat(
            " NOTIFY ",
        ).concat(ident_changed).concat(")"),
    );
    let getter_header = String::from_str(getter_type.as_str()).concat(" ").concat(
        ident_getter,
    ).concat("() const;");
    let mut header_public = one_string(getter_header);
    let header_signals = one_string(
        String::from_str("void ").concat(ident_changed).concat("();"),
    );
    let header_slots = one_string(
        String::from_str("void ").concat(ident_setter).concat("(").concat(
            setter_parameter.as_str(),
        ).concat(");"),
    );

    let parameter_ident_pascal = ident_pascal;
    let member_ident = String::from_str("m_").concat(ident);
    let member_owned_ident = String::from_str("m_owned").concat(parameter_ident_pascal);

    let accessors = accessor_source(
        struct_ident,
        property,
        getter_type.as_str(),
        setter_parameter.as_str(),
        member_ident.as_str(),
        member_owned_ident.as_str(),
        Ghost(ident_pascal@),
    );
    let mut source = one_string(accessors);

    let header_members = if qt_type.is_ptr() {
        // The pointer is kept in the C++ object, beside a member that may own it.
        let mut header_members = one_string(
            String::from_str(type_ident).concat("* m_").concat(ident).concat(" = nullptr;"),
        );
        push_string(
            &mut header_members,
            String::from_str("std::unique_ptr<").concat(type_ident).concat("> ").concat(
                member_owned_ident.as_str(),
            ).concat(";"),
        );
        // Neither of the two can be a slot: moc cannot handle the unique_ptr.
        push_string(
            &mut header_public,
            String::from_str("std::unique_ptr<").concat(type_ident).concat("> take").concat(
                parameter_ident_pascal,
            ).concat("();"),
        );
        push_string(
            &mut header_public,
            String::from_str("void give").concat(parameter_ident_pascal).concat(
                "(std::unique_ptr<",
            ).concat(type_ident).concat("> value);"),
        );
        push_string(
            &mut source,
            transfer_source(
                struct_ident,
                property,
                parameter_ident_pascal,
                member_ident.as_str(),
                member_owned_ident.as_str(),
            ),
        );
        header_members
    } else {
        one_string(String::from_str(type_ident).concat(" m_").concat(ident).concat(";"))
    };
    proof {
        assert(header_members.deep_view() =~= property_members(*property, ident_pascal@));
        assert(header_public.deep_view() =~= property_public(*property, ident_pascal@));
        assert(source.deep_view() =~= property_sources(struct_ident@, *property, ident_pascal@));
    }
    CppProperty { header_members, header_meta, header_public, header_signals, header_slots, source }
}

/// Generates the header and source parts of each property of a list, in the order of the
/// list. Nothing is generated where a property lacks an accessor or has a C++ name that is
/// not ASCII.
pub fn generate_properties_cpp(struct_ident: &str, properties: &[Property]) -> (r: Result<
    Vec<CppProperty>,
    GenerationError,
>)
    ensures
        match r {
            Ok(items) => properties_violation(properties@) is None && items@.len()
                == properties@.len() && forall|i: int|
                0 <= i < items@.len() ==> property_generated(
                    struct_ident@,
                    properties@[i],
                    pascal_case(properties@[i].ident.cpp_ident@),
                    #[trigger] items@[i],
                ),
            Err(GenerationError::Descriptor(violation)) => properties_violation(properties@)
                == Some(violation),
            Err(GenerationError::Syntax(_)) => false,
        },
{
    match check_properties(properties) {
        Some(violation) => {
            return Err(GenerationError::Descriptor(violation));
        },
        None => {},
    }
    proof {
        crate::descriptor::lemma_properties_valid(properties@);
    }
    let mut items: Vec<CppProperty> = Vec::new();
    let mut i: usize = 0;
    while i < properties.len()
        invariant
            i <= properties.len(),
            items@.len() == i,
            forall|j: int|
                0 <= j < properties@.len() ==> (#[trigger] properties@[j]).violation() is None,
            forall|j: int|
                0 <= j < i ==> property_generated(
                    struct_ident@,
                    properties@[j],
                    pascal_case(properties@[j].ident.cpp_ident@),
                    #[trigger] items@[j],
                ),
        decreases properties.len() - i,
    {
        assert(properties@[i as int].violation() is None);
        let ident_pascal = to_pascal_case(properties[i].ident.cpp_ident.as_str());
        items.push(write_property(struct_ident, &properties[i], ident_pascal.as_str()));
        i += 1;
    }
    Ok(items)
}

/// The type of a parameter of a signal that is emitted at once: as any input to a method.
pub open spec fn immediate_type(t: QtTypes) -> Seq<char> {
    t.const_text() + " "@ + t.native_name() + t.ref_text() + t.ptr_text()
}

/// The type of a parameter of a signal that is emitted through the event queue: an opaque
/// value travels behind a `std::unique_ptr`, any other value as it is.
pub open spec fn queued_type(t: QtTypes) -> Seq<char> {
    (if t.spec_is_opaque() {
        "std::unique_ptr<"@ + t.native_name() + ">"@
    } else {
        t.native_name()
    }) + t.ptr_text()
}

/// The parameters of a signal that is emitted at once, each with its type.
pub open spec fn signal_parameters_immediate(parameters: Seq<Parameter>) -> Seq<Seq<char>> {
    Seq::new(
        parameters.len(),
        |i: int| immediate_type(parameters[i].type_ident.qt_type) + " "@ + parameters[i].ident@,
    )
}

/// The parameters of a signal that is emitted through the event queue, each with its type.
pub open spec fn signal_parameters_queued(parameters: Seq<Parameter>) -> Seq<Seq<char>> {
    Seq::new(
        parameters.len(),
        |i: int| queued_type(parameters[i].type_ident.qt_type) + " "@ + parameters[i].ident@,
    )
}

/// What the queued closure captures: the object, and each parameter by move.
pub open spec fn signal_captures(parameters: Seq<Parameter>) -> Seq<Seq<char>> {
    Seq::new(
        parameters.len() + 1,
        |i: int|
            if i == 0 {
                "this"@
            } else {
                parameters[i - 1].ident@ + " = std::move("@ + parameters[i - 1].ident@ + ")"@
            },
    )
}

/// What the queued closure hands to the signal: each parameter, converted from its queued
/// type to its immediate type.
pub open spec fn signal_values(parameters: Seq<Parameter>) -> Seq<Seq<char>> {
    Seq::new(
        parameters.len(),
        |i: int|
            "rust::cxxqtlib1::cxx_qt_convert<"@ + immediate_type(parameters[i].type_ident.qt_type)
                + ", "@ + queued_type(parameters[i].type_ident.qt_type) + ">{}("@
                + parameters[i].ident@ + ")"@,
    )
}

/// The declaration of the method that emits a signal through the event queue.
pub open spec fn signal_queued_header(signal: Signal) -> Seq<char> {
    "void "@ + signal.emit_ident.cpp_ident@ + "("@ + join(
        signal_parameters_queued(signal.parameters@),
        ", "@,
    ) + ");"@
}

/// The declaration of the signal itself, which is emitted at once.
pub open spec fn signal_immediate_header(signal: Signal) -> Seq<char> {
    "void "@ + signal.signal_ident.cpp_ident@ + "("@ + join(
        signal_parameters_immediate(signal.parameters@),
        ", "@,
    ) + ");"@
}

/// The definition of the method that emits a signal through the event queue: it posts a
/// closure that owns the parameters and asserts that posting worked.
pub open spec fn signal_source(struct_ident: Seq<char>, signal: Signal) -> Seq<char> {
    "void\n"@ + struct_ident + "::"@ + signal.emit_ident.cpp_ident@ + "("@ + join(
        signal_parameters_queued(signal.parameters@),
        ", "@,
    ) + ")\n"@ + "{\n"@ + "    const auto signalSuccess = QMetaObject::invokeMethod(\n"@
        + "        this, ["@ + join(signal_captures(signal.parameters@), ", "@)
        + "]() { Q_EMIT "@ + signal.signal_ident.cpp_ident@ + "("@ + join(
        signal_values(signal.parameters@),
        ", "@,
    ) + "); }, Qt::QueuedConnection);\n"@ + "    Q_ASSERT(signalSuccess);\n"@ + "}\n"@
}

/// A generated signal holds exactly two entry points, the queued method and the signal
/// itself, and the definition of the queued method.
pub open spec fn signal_generated(
    struct_ident: Seq<char>,
    signal: Signal,
    generated: CppSignal,
) -> bool {
    &&& generated.header_public.deep_view() == seq![signal_queued_header(signal)]
    &&& generated.header_signals.deep_view() == seq![signal_immediate_header(signal)]
    &&& generated.source@ == signal_source(struct_ident, signal)
}

/// Builds the type of a parameter of a signal that is emitted at once.
fn type_ident_to_immediate(qt_type: &QtTypes) -> (r: String)
    ensures
        r@ == immediate_type(*qt_type),
{
    String::from_str(qt_type.as_const_str()).concat(" ").concat(qt_type.type_ident()).concat(
        qt_type.as_ref_str(),
    ).concat(qt_type.as_ptr_str())
}

/// Builds the type of a parameter of a signal that is emitted through the event queue.
fn type_ident_to_queued(qt_type: &QtTypes) -> (r: String)
    ensures
        r@ == queued_type(*qt_type),
{
    let type_ident = if qt_type.is_opaque() {
        String::from_str("std::unique_ptr<").concat(qt_type.type_ident()).concat(">")
    } else {
        String::from_str(qt_type.type_ident())
    };
    type_ident.concat(qt_type.as_ptr_str())
}

/// Generates the header and source parts of one signal.
pub fn generate_signal_cpp(struct_ident: &str, signal: &Signal) -> (r: CppSignal)
    ensures
        signal_generated(struct_ident@, *signal, r),
{
    let queued_ident_cpp = signal.emit_ident.cpp_ident.as_str();
    let signal_ident_cpp = signal.signal_ident.cpp_ident.as_str();

    let mut with_type: Vec<String> = Vec::new();
    let mut with_type_queued: Vec<String> = Vec::new();
    // The closure captures by value, so that the values are moved into it.
    let mut captures: Vec<String> = Vec::new();
    push_string(&mut captures, String::from_str("this"));
    let mut parameter_values: Vec<String> = Vec::new();
    let ghost parameters = signal.parameters@;
    let mut i: usize = 0;
    while i < signal.parameters.len()
        invariant
            i <= parameters.len(),
            parameters == signal.parameters@,
            with_type.deep_view() =~= signal_parameters_immediate(parameters.take(i as int)),
            with_type_queued.deep_view() =~= signal_parameters_queued(parameters.take(i as int)),
            captures.deep_view() =~= signal_captures(parameters.take(i as int)),
            parameter_values.deep_view() =~= signal_values(parameters.take(i as int)),
        decreases parameters.len() - i,
    {
        let parameter = &signal.parameters[i];
        let immediate = type_ident_to_immediate(&parameter.type_ident.qt_type);
        let queued = type_ident_to_queued(&parameter.type_ident.qt_type);
        let parameter_str = parameter.ident.as_str();
        push_string(
            &mut with_type,
            String::from_str(immediate.as_str()).concat(" ").concat(parameter_str),
        );
        push_string(
            &mut with_type_queued,
            String::from_str(queued.as_str()).concat(" ").concat(parameter_str),
        );
        push_string(
            &mut captures,
            String::from_str(parameter_str).concat(" = std::move(").concat(parameter_str).concat(
                ")",
            ),
        );
        push_string(
            &mut parameter_values,
            String::from_str("rust::cxxqtlib1::cxx_qt_convert<").concat(
                immediate.as_str(),
            ).concat(", ").concat(queued.as_str()).concat(">{}(").concat(parameter_str).concat(
                ")",
            ),
        );
        i += 1;
    }
    proof {
        assert(parameters.take(parameters.len() as int) =~= parameters);
    }
    let parameters_with_type = join_strings(&with_type, ", ");
    let parameters_with_type_queued = join_strings(&with_type_queued, ", ");

    let header_public = one_string(
        String::from_str("void ").concat(queued_ident_cpp).concat("(").concat(
            parameters_with_type_queued.as_str(),
        ).concat(");"),
    );
    let header_signals = one_string(
        String::from_str("void ").concat(signal_ident_cpp).concat("(").concat(
            parameters_with_type.as_str(),
        ).concat(");"),
    );
    let source = String::from_str("void\n").concat(struct_ident).concat("::").concat(
        queued_ident_cpp,
    ).concat("(").concat(parameters_with_type_queued.as_str()).concat(")\n").concat(
        "{\n",
    ).concat("    const auto signalSuccess = QMetaObject::invokeMethod(\n").concat(
        "        this, [",
    ).concat(join_strings(&captures, ", ").as_str()).concat("]() { Q_EMIT ").concat(
        signal_ident_cpp,
    ).concat("(").concat(join_strings(&parameter_values, ", ").as_str()).concat(
        "); }, Qt::QueuedConnection);\n",
    ).concat("    Q_ASSERT(signalSuccess);\n").concat("}\n");

    CppSignal { header_public, header_signals, source }
}

/// Generates the header and source parts of each signal of a list.
pub fn generate_signals_cpp(struct_ident: &str, signals: &[Signal]) -> (r: Result<
    Vec<CppSignal>,
    GenerationError,
>)
    ensures
        r matches Ok(items) && items@.len() == signals@.len() && forall|i: int|
            0 <= i < items@.len() ==> signal_generated(
                struct_ident@,
                signals@[i],
                #[trigger] items@[i],
            ),
{
    let mut items: Vec<CppSignal> = Vec::new();
    let mut i: usize = 0;
    while i < signals.len()
        invariant
            i <= signals.len(),
            items@.len() == i,
            forall|j: int|
                0 <= j < i ==> signal_generated(struct_ident@, signals@[j], #[trigger] items@[j]),
        decreases signals.len() - i,
    {
        items.push(generate_signal_cpp(struct_ident, &signals[i]));
        i += 1;
    }
    Ok(items)
}

/// The members of all properties, in the order of the properties.
pub open spec fn properties_members(properties: Seq<Property>) -> Seq<Seq<char>>
    decreases properties.len(),
{
    if properties.len() == 0 {
        Seq::empty()
    } else {
        properties_members(properties.drop_last()) + property_members(
            properties.last(),
            pascal_case(properties.last().ident.cpp_ident@),
        )
    }
}

/// The registrations of all properties: one for each.
pub open spec fn properties_meta(properties: Seq<Property>) -> Seq<Seq<char>> {
    Seq::new(properties.len(), |i: int| property_meta(properties[i]))
}

/// The notify signals of all properties: one for each.
pub open spec fn properties_signals(properties: Seq<Property>) -> Seq<Seq<char>> {
    Seq::new(properties.len(), |i: int| property_notify_header(properties[i]))
}

/// The setters of all properties, which are slots: one for each.
pub open spec fn properties_slots(properties: Seq<Property>) -> Seq<FragmentText> {
    Seq::new(
        properties.len(),
        |i: int| FragmentText { header: property_setter_header(properties[i]), source: ""@ },
    )
}

/// The methods of all properties: for each property its public declarations, then the
/// definitions of all its methods.
pub open spec fn properties_methods(struct_ident: Seq<char>, properties: Seq<Property>) -> Seq<
    FragmentText,
>
    decreases properties.len(),
{
    if properties.len() == 0 {
        Seq::empty()
    } else {
        properties_methods(struct_ident, properties.drop_last()) + header_pairs(
            property_public(
                properties.last(),
                pascal_case(properties.last().ident.cpp_ident@),
            ),
        ) + source_pairs(
            property_sources(
                struct_ident,
                properties.last(),
                pascal_case(properties.last().ident.cpp_ident@),
            ),
        )
    }
}

/// The methods of all invokables: one piece for each, with declaration and definition.
pub open spec fn invokables_methods(struct_ident: Seq<char>, invokables: Seq<Invokable>) -> Seq<
    FragmentText,
> {
    Seq::new(
        invokables.len(),
        |i: int|
            FragmentText {
                header: invokable_header(invokables[i]),
                source: invokable_source(struct_ident, invokables[i]),
            },
    )
}

/// The methods of all signals: for each signal the declaration of its queued method, then
/// the definition of that method.
pub open spec fn signals_methods(struct_ident: Seq<char>, signals: Seq<Signal>) -> Seq<
    FragmentText,
> {
    Seq::new(
        2 * signals.len(),
        |i: int|
            if i % 2 == 0 {
                FragmentText { header: signal_queued_header(signals[i / 2]), source: ""@ }
            } else {
                FragmentText { header: ""@, source: signal_source(struct_ident, signals[i / 2]) }
            },
    )
}

/// The declarations of all signals themselves: one for each.
pub open spec fn signals_signals(signals: Seq<Signal>) -> Seq<Seq<char>> {
    Seq::new(signals.len(), |i: int| signal_immediate_header(signals[i]))
}

/// The definition of the method that hands out a requester of updates, bound to the
/// invokable `updateState`.
pub open spec fn update_requester_source(ident: Seq<char>) -> Seq<char> {
    "std::unique_ptr<rust::cxxqtlib1::UpdateRequester> "@ + ident + "::updateRequester() {\n"@
        + "    return std::make_unique<rust::cxxqtlib1::UpdateRequester>(this, \"updateState\");\n"@
        + "}\n"@
}

/// The definition of the invokable that hands an update request to the Rust object, under
/// the object's mutex.
pub open spec fn update_state_source(ident: Seq<char>) -> Seq<char> {
    "void "@ + ident + "::updateState() {\n"@
        + "    const std::lock_guard<std::mutex> guard(m_rustObjMutex);\n"@
        + "    m_rustObj->handleUpdateRequest(*this);\n"@ + "}\n"@
}

/// The two methods of the update-request hook; none where the object does not ask for it.
pub open spec fn update_methods(ident: Seq<char>, handles_updates: bool) -> Seq<FragmentText> {
    if handles_updates {
        seq![
            FragmentText {
                header: "std::unique_ptr<rust::cxxqtlib1::UpdateRequester> updateRequester();"@,
                source: update_requester_source(ident),
            },
            FragmentText {
                header: "Q_INVOKABLE void updateState();"@,
                source: update_state_source(ident),
            },
        ]
    } else {
        Seq::empty()
    }
}

/// All that is written for an object: the parts of its properties, then of its invokables,
/// then of its signals, then the update-request hook.
pub open spec fn cpp_blocks(obj: ObjectDescriptor) -> CppBlocksText {
    CppBlocksText {
        cxx_stem: snake_case(obj.ident@),
        ident: obj.ident@,
        rust_ident: obj.ident@ + "Rust"@,
        namespace: obj.namespace@,
        namespace_internals: namespace_internals_text(obj.namespace@, snake_case(obj.ident@)),
        metaobjects: properties_meta(obj.properties@),
        methods: properties_methods(obj.ident@, obj.properties@) + invokables_methods(
            obj.ident@,
            obj.invokables@,
        ) + signals_methods(obj.ident@, obj.signals@) + update_methods(
            obj.ident@,
            obj.handles_updates(),
        ),
        slots: properties_slots(obj.properties@),
        signals: properties_signals(obj.properties@) + signals_signals(obj.signals@),
        members: properties_members(obj.properties@),
    }
}

/// Sorts the parts of the generated properties into the lists of the class.
fn collect_properties(
    struct_ident: &str,
    properties: &[Property],
    items: &Vec<CppProperty>,
    members: &mut Vec<String>,
    metaobjects: &mut Vec<String>,
    methods: &mut Vec<CppFragmentPair>,
    signals: &mut Vec<String>,
    slots: &mut Vec<CppFragmentPair>,
)
    requires
        items@.len() == properties@.len(),
        forall|i: int|
            0 <= i < items@.len() ==> property_generated(
                    struct_ident@,
                    properties@[i],
                    pascal_case(properties@[i].ident.cpp_ident@),
                    #[trigger] items@[i],
                ),
        old(members)@.len() == 0,
        old(metaobjects)@.len() == 0,
        old(methods)@.len() == 0,
        old(signals)@.len() == 0,
        old(slots)@.len() == 0,
    ensures
        final(members).deep_view() == properties_members(properties@),
        final(metaobjects).deep_view() == properties_meta(properties@),
        final(methods).deep_view() == properties_methods(struct_ident@, properties@),
        final(signals).deep_view() == properties_signals(properties@),
        final(slots).deep_view() == properties_slots(properties@),
{
    let mut i: usize = 0;
    assert(methods.deep_view() =~= properties_methods(struct_ident@, properties@.take(0)));
    assert(members.deep_view() =~= properties_members(properties@.take(0)));
    while i < items.len()
        invariant
            i <= items@.len(),
            items@.len() == properties@.len(),
            forall|j: int|
                0 <= j < items@.len() ==> property_generated(
                    struct_ident@,
                    properties@[j],
                    pascal_case(properties@[j].ident.cpp_ident@),
                    #[trigger] items@[j],
                ),
            members.deep_view() =~= properties_members(properties@.take(i as int)),
            metaobjects.deep_view() =~= properties_meta(properties@.take(i as int)),
            methods.deep_view() =~= properties_methods(struct_ident@, properties@.take(i as int)),
            signals.deep_view() =~= properties_signals(properties@.take(i as int)),
            slots.deep_view() =~= properties_slots(properties@.take(i as int)),
        decreases items.len() - i,
    {
        let property = &items[i];
        proof {
            let seen = properties@.take(i + 1);
            assert(seen.drop_last() =~= properties@.take(i as int));
            assert(seen.last() == properties@[i as int]);
            assert(property_generated(
                struct_ident@,
                properties@[i as int],
                pascal_case(properties@[i as int].ident.cpp_ident@),
                items@[i as int],
            ));
        }
        append_strings(members, &property.header_members);
        append_strings(metaobjects, &property.header_meta);
        append_header_pairs(methods, &property.header_public);
        append_strings(signals, &property.header_signals);
        append_header_pairs(slots, &property.header_slots);
        append_source_pairs(methods, &property.source);
        i += 1;
    }
    proof {
        assert(properties@.take(properties@.len() as int) =~= properties@);
    }
}

/// Builds all that is written into the header and the source of an object's class. Nothing
/// is built where the description breaks a rule.
pub fn generate_cpp_blocks(obj: &ObjectDescriptor) -> (r: Result<
    GeneratedCppBlocks,
    GenerationError,
>)
    ensures
        match r {
            Ok(generated) => obj.cpp_violation() is None && generated@ == cpp_blocks(*obj),
            Err(GenerationError::Descriptor(violation)) => obj.cpp_violation() == Some(violation),
            Err(GenerationError::Syntax(_)) => false,
        },
{
    match obj.check_cpp() {
        Some(violation) => {
            return Err(GenerationError::Descriptor(violation));
        },
        None => {},
    }
    let struct_ident_str = obj.ident.as_str();
    let rust_struct_ident = String::from_str(struct_ident_str).concat("Rust");

    let mut members: Vec<String> = Vec::new();
    let mut metaobjects: Vec<String> = Vec::new();
    let mut methods: Vec<CppFragmentPair> = Vec::new();
    let mut signals: Vec<String> = Vec::new();
    let mut slots: Vec<CppFragmentPair> = Vec::new();

    let properties = match generate_properties_cpp(struct_ident_str, obj.properties.as_slice()) {
        Ok(properties) => properties,
        Err(error) => {
            return Err(error);
        },
    };
    collect_properties(
        struct_ident_str,
        obj.properties.as_slice(),
        &properties,
        &mut members,
        &mut metaobjects,
        &mut methods,
        &mut signals,
        &mut slots,
    );

    let invokables = match generate_invokables_cpp(struct_ident_str, obj.invokables.as_slice()) {
        Ok(invokables) => invokables,
        Err(error) => {
            return Err(error);
        },
    };
    let ghost property_methods = methods.deep_view();
    let mut i: usize = 0;
    while i < invokables.len()
        invariant
            i <= invokables@.len(),
            invokables@.len() == obj.invokables@.len(),
            forall|j: int|
                0 <= j < invokables@.len() ==> (#[trigger] invokables@[j]).header@
                    == invokable_header(obj.invokables@[j]) && invokables@[j].source@
                    == invokable_source(struct_ident_str@, obj.invokables@[j]),
            methods.deep_view() =~= property_methods + invokables_methods(
                struct_ident_str@,
                obj.invokables@.take(i as int),
            ),
        decreases invokables.len() - i,
    {
        push_pair(&mut methods, invokables[i].header.clone(), invokables[i].source.clone());
        i += 1;
    }
    proof {
        assert(obj.invokables@.take(obj.invokables@.len() as int) =~= obj.invokables@);
    }

    let generated_signals = match generate_signals_cpp(struct_ident_str, obj.signals.as_slice()) {
        Ok(generated_signals) => generated_signals,
        Err(error) => {
            return Err(error);
        },
    };
    let ghost invokable_methods = methods.deep_view();
    let ghost property_signals = signals.deep_view();
    let mut i: usize = 0;
    while i < generated_signals.len()
        invariant
            i <= generated_signals@.len(),
            generated_signals@.len() == obj.signals@.len(),
            forall|j: int|
                0 <= j < generated_signals@.len() ==> signal_generated(
                    struct_ident_str@,
                    obj.signals@[j],
                    #[trigger] generated_signals@[j],
                ),
            methods.deep_view() =~= invokable_methods + signals_methods(
                struct_ident_str@,
                obj.signals@.take(i as int),
            ),
            signals.deep_view() =~= property_signals + signals_signals(
                obj.signals@.take(i as int),
            ),
        decreases generated_signals.len() - i,
    {
        let signal = &generated_signals[i];
        proof {
            assert(signal_generated(
                struct_ident_str@,
                obj.signals@[i as int],
                generated_signals@[i as int],
            ));
        }
        append_header_pairs(&mut methods, &signal.header_public);
        append_strings(&mut signals, &signal.header_signals);
        push_pair(&mut methods, String::from_str(""), signal.source.clone());
        i += 1;
    }
    proof {
        assert(obj.signals@.take(obj.signals@.len() as int) =~= obj.signals@);
    }

    let ghost signal_methods = methods.deep_view();
    if obj.handle_updates_impl.is_some() {
        push_pair(
            &mut methods,
            String::from_str(
                "std::unique_ptr<rust::cxxqtlib1::UpdateRequester> updateRequester();",
            ),
            String::from_str("std::unique_ptr<rust::cxxqtlib1::UpdateRequester> ").concat(
                struct_ident_str,
            ).concat("::updateRequester() {\n").concat(
                "    return std::make_unique<rust::cxxqtlib1::UpdateRequester>(this, \"updateState\");\n",
            ).concat("}\n"),
        );
        push_pair(
            &mut methods,
            String::from_str("Q_INVOKABLE void updateState();"),
            String::from_str("void ").concat(struct_ident_str).concat(
                "::updateState() {\n",
            ).concat("    const std::lock_guard<std::mutex> guard(m_rustObjMutex);\n").concat(
                "    m_rustObj->handleUpdateRequest(*this);\n",
            ).concat("}\n"),
        );
    }
    proof {
        assert(methods.deep_view() =~= signal_methods + update_methods(
            obj.ident@,
            obj.handles_updates(),
        ));
    }

    let ident_snake = to_snake_case(struct_ident_str);
    let generated = GeneratedCppBlocks {
        cxx_stem: String::from_str(ident_snake.as_str()),
        ident: String::from_str(struct_ident_str),
        rust_ident: rust_struct_ident,
        namespace: obj.namespace.clone(),
        namespace_internals: write_namespace_internals(
            obj.namespace.as_str(),
            ident_snake.as_str(),
        ),
        metaobjects,
        methods,
        slots,
        signals,
        members,
    };
    Ok(generated)
}

/// Generates the header and the source of the C++ class of an object. Nothing is generated
/// where the description breaks a rule.
pub fn generate_qobject_cpp(obj: &ObjectDescriptor) -> (r: Result<CppObject, GenerationError>)
    ensures
        match r {
            Ok(object) => obj.cpp_violation() is None && object.header@ == header_text(
                cpp_blocks(*obj),
            ) && object.source@ == source_text(cpp_blocks(*obj)),
            Err(GenerationError::Descriptor(violation)) => obj.cpp_violation() == Some(violation),
            Err(GenerationError::Syntax(_)) => false,
        },
{
    let generated = match generate_cpp_blocks(obj) {
        Ok(generated) => generated,
        Err(error) => {
            return Err(error);
        },
    };
    let writer = write_cpp(&generated);
    Ok(CppObject { header: writer.header, source: writer.source })
}

/// A generated property declares exactly one registration, one getter, one setter and one
/// notify signal, and the registration names the getter, the setter and the signal by the
/// names under which they are declared: those of the description.
pub proof fn lemma_property_declarations(
    struct_ident: Seq<char>,
    property: Property,
    pascal: Seq<char>,
    generated: CppProperty,
)
    requires
        property_generated(struct_ident, property, pascal, generated),
    ensures
        generated.header_meta@.len() == 1,
        generated.header_slots@.len() == 1,
        generated.header_signals@.len() == 1,
        generated.header_public@.len() == if property.is_pointer_backed() {
            3int
        } else {
            1int
        },
        generated.header_meta@[0]@ == property_meta(property),
        generated.header_public@[0]@ == property_getter_header(property),
        generated.header_slots@[0]@ == property_setter_header(property),
        generated.header_signals@[0]@ == property_notify_header(property),
        property.is_pointer_backed() ==> generated.header_public@[1]@ == property_take_header(
            property,
            pascal,
        ) && generated.header_public@[2]@ == property_give_header(property, pascal),
{
    assert(generated.header_meta.deep_view().len() == 1);
    assert(generated.header_meta.deep_view()[0] == property_meta(property));
    assert(generated.header_slots.deep_view().len() == 1);
    assert(generated.header_slots.deep_view()[0] == property_setter_header(property));
    assert(generated.header_signals.deep_view().len() == 1);
    assert(generated.header_signals.deep_view()[0] == property_notify_header(property));
    assert(generated.header_public.deep_view()[0] == property_getter_header(property));
    if property.is_pointer_backed() {
        assert(generated.header_public.deep_view().len() == 3);
        assert(generated.header_public.deep_view()[1] == property_take_header(property, pascal));
        assert(generated.header_public.deep_view()[2] == property_give_header(property, pascal));
    } else {
        assert(generated.header_public.deep_view().len() == 1);
    }
}

/// In the class of an object every property has its registration, its setter among the
/// slots and its notify signal among the signals, each at the property's own position and
/// once.
pub proof fn lemma_property_accessors(obj: ObjectDescriptor, i: int)
    requires
        0 <= i < obj.properties@.len(),
    ensures
        cpp_blocks(obj).metaobjects.len() == obj.properties@.len(),
        cpp_blocks(obj).slots.len() == obj.properties@.len(),
        cpp_blocks(obj).signals.len() == obj.properties@.len() + obj.signals@.len(),
        cpp_blocks(obj).metaobjects[i] == property_meta(obj.properties@[i]),
        cpp_blocks(obj).slots[i].header == property_setter_header(obj.properties@[i]),
        cpp_blocks(obj).signals[i] == property_notify_header(obj.properties@[i]),
        property_public(
            obj.properties@[i],
            pascal_case(obj.properties@[i].ident.cpp_ident@),
        )[0] == property_getter_header(obj.properties@[i]),
{
}

/// A generated signal has exactly two entry points: the method that emits it through the
/// event queue and the signal itself, which is emitted at once.
pub proof fn lemma_signal_entry_points(
    struct_ident: Seq<char>,
    signal: Signal,
    generated: CppSignal,
)
    requires
        signal_generated(struct_ident, signal, generated),
    ensures
        generated.header_public@.len() == 1,
        generated.header_signals@.len() == 1,
        generated.header_public@[0]@ == signal_queued_header(signal),
        generated.header_signals@[0]@ == signal_immediate_header(signal),
{
    assert(generated.header_public.deep_view().len() == 1);
    assert(generated.header_public.deep_view()[0] == signal_queued_header(signal));
    assert(generated.header_signals.deep_view().len() == 1);
    assert(generated.header_signals.deep_view()[0] == signal_immediate_header(signal));
}

/// The two ways of emitting a signal differ in how they pass an opaque value, a const
/// reference at once and an owning handle through the event queue, and in nothing else: a
/// value of any other type is passed in the same form, which at once stands behind one
/// blank. An owning handle of a value that is not opaque is left out: it is a const
/// reference at once and the plain value through the event queue.
pub proof fn lemma_signal_conventions(t: QtTypes)
    requires
        t is UniquePtr ==> t.spec_is_opaque(),
    ensures
        t.spec_is_opaque() ==> immediate_type(t) == "const"@ + " "@ + t.native_name() + "&"@
            && queued_type(t) == "std::unique_ptr<"@ + t.native_name() + ">"@,
        !t.spec_is_opaque() ==> immediate_type(t) == " "@ + queued_type(t),
{
    reveal_strlit("");
    lemma_mapping_rules(t);
    if t.spec_is_opaque() {
        assert(immediate_type(t) =~= "const"@ + " "@ + t.native_name() + "&"@);
        assert(queued_type(t) =~= "std::unique_ptr<"@ + t.native_name() + ">"@);
    } else {
        assert(immediate_type(t) =~= " "@ + queued_type(t));
    }
}

} // verus!
