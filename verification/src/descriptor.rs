use crate::types::QtTypes;
use vstd::prelude::*;
use vstd::utf8::is_ascii_chars;

verus! {

/// The name of one item on the C++ side and on the Rust side.
#[derive(Debug)]
pub struct CppRustIdent {
    pub cpp_ident: String,
    pub rust_ident: String,
}

/// The type of a parameter, a property or a return value, as it was written.
#[derive(Debug)]
pub struct ParameterType {
    pub qt_type: QtTypes,
    pub is_mut: bool,
    pub is_ref: bool,
}

/// One parameter of an invokable or of a signal.
#[derive(Debug)]
pub struct Parameter {
    pub ident: String,
    pub type_ident: ParameterType,
}

/// One property with the names of its three accessors. An accessor that is `None` is
/// missing.
#[derive(Debug)]
pub struct Property {
    pub ident: CppRustIdent,
    pub type_ident: ParameterType,
    pub getter: Option<CppRustIdent>,
    pub setter: Option<CppRustIdent>,
    pub notify: Option<CppRustIdent>,
}

/// One method that the meta-object system can call.
#[derive(Debug)]
pub struct Invokable {
    pub ident: CppRustIdent,
    /// The name of the wrapper method, where a parameter or the return value has to be
    /// converted before it reaches the method itself.
    pub ident_wrapper: Option<CppRustIdent>,
    /// Whether the method takes `&mut self`.
    pub mutable: bool,
    pub parameters: Vec<Parameter>,
    pub return_type: Option<ParameterType>,
    /// The method as it was written, which is passed through.
    pub original_method: String,
}

/// One signal, which can be emitted at once or through the event queue.
#[derive(Debug)]
pub struct Signal {
    /// The name of the variant in the enum of signals.
    pub enum_ident: String,
    /// The name of the signal itself, which is emitted at once.
    pub signal_ident: CppRustIdent,
    /// The name of the method that emits through the event queue.
    pub emit_ident: CppRustIdent,
    pub parameters: Vec<Parameter>,
}

/// One field of a struct: its name, where it has one, and the whole field as it was written.
#[derive(Debug)]
pub struct Field {
    pub ident: Option<String>,
    pub text: String,
}

/// A struct as it was written, in its parts.
#[derive(Debug)]
pub struct ItemStruct {
    pub attrs: Vec<String>,
    pub vis: String,
    pub ident: String,
    pub generics: String,
    pub fields: Vec<Field>,
}

/// What stands before the body of the module that the object was written in.
#[derive(Debug)]
pub struct ModuleHead {
    pub attrs: Vec<String>,
    pub vis: String,
    pub ident: String,
}

/// The description of one object, from which both sides are generated.
#[derive(Debug)]
pub struct ObjectDescriptor {
    pub ident: String,
    /// The C++ namespace of the object; empty for none.
    pub namespace: String,
    pub properties: Vec<Property>,
    pub invokables: Vec<Invokable>,
    pub signals: Vec<Signal>,
    /// The name of the enum of signals.
    pub signal_ident: String,
    /// The impl that handles update requests, as it was written; its presence asks for the
    /// update-request hook.
    pub handle_updates_impl: Option<String>,
    pub original_mod: ModuleHead,
    pub original_signal_enum: Option<String>,
    pub original_data_struct: ItemStruct,
    pub original_rust_struct: ItemStruct,
    /// Items that are passed through to the generated module.
    pub original_passthrough_decls: Vec<String>,
    /// Items that are passed through to the bridge.
    pub cxx_items: Vec<String>,
    /// Methods of the Rust struct that are not invokable, as they were written.
    pub methods: Vec<String>,
}

/// What can be wrong with a description.
#[derive(Clone, Copy, Debug, PartialEq, Eq, Structural)]
pub enum Violation {
    /// A property lacks the name of its getter, setter or notify signal.
    MissingAccessor,
    /// A name that has to be put into another case holds a character outside ASCII.
    NonAsciiIdentifier,
    /// A parameter refers to another object without a path to it.
    EmptyTypePath,
}

/// Why nothing was generated.
#[derive(Debug)]
pub enum GenerationError {
    /// The description breaks a rule.
    Descriptor(Violation),
    /// The generated Rust text is not a module; the message says where.
    Syntax(String),
}

impl Violation {
    /// What the violation is, in words.
    pub open spec fn description(&self) -> Seq<char> {
        match self {
            Violation::MissingAccessor =>
                "a property lacks the name of its getter, setter or notify signal"@,
            Violation::NonAsciiIdentifier =>
                "the name of an object or of a property holds a character outside ASCII"@,
            Violation::EmptyTypePath =>
                "a parameter refers to another object without a path to it"@,
        }
    }

    /// Says in words what the violation is.
    pub fn describe(&self) -> (r: &'static str)
        ensures
            r@ == self.description(),
    {
        match self {
            Violation::MissingAccessor =>
                "a property lacks the name of its getter, setter or notify signal",
            Violation::NonAsciiIdentifier =>
                "the name of an object or of a property holds a character outside ASCII",
            Violation::EmptyTypePath => "a parameter refers to another object without a path to it",
        }
    }
}

impl GenerationError {
    /// The message of the error: what the violation is, or what the check of the generated
    /// text found.
    pub open spec fn message_text(&self) -> Seq<char> {
        match self {
            GenerationError::Descriptor(violation) => violation.description(),
            GenerationError::Syntax(message) => message@,
        }
    }

    /// Gives the message of the error.
    pub fn message(&self) -> (r: String)
        ensures
            r@ == self.message_text(),
    {
        match self {
            GenerationError::Descriptor(violation) => String::from_str(violation.describe()),
            GenerationError::Syntax(message) => message.clone(),
        }
    }
}

/// The C++ name of an accessor; empty for an accessor that is missing.
pub open spec fn cpp_name(accessor: Option<CppRustIdent>) -> Seq<char> {
    match accessor {
        Some(names) => names.cpp_ident@,
        None => ""@,
    }
}

/// The Rust name of an accessor; empty for an accessor that is missing.
pub open spec fn rust_name(accessor: Option<CppRustIdent>) -> Seq<char> {
    match accessor {
        Some(names) => names.rust_ident@,
        None => ""@,
    }
}

/// Gives the C++ name of an accessor.
pub fn cpp_name_of(accessor: &Option<CppRustIdent>) -> (r: &str)
    ensures
        r@ == cpp_name(*accessor),
{
    match accessor {
        Some(names) => names.cpp_ident.as_str(),
        None => "",
    }
}

/// Gives the Rust name of an accessor.
pub fn rust_name_of(accessor: &Option<CppRustIdent>) -> (r: &str)
    ensures
        r@ == rust_name(*accessor),
{
    match accessor {
        Some(names) => names.rust_ident.as_str(),
        None => "",
    }
}

impl Property {
    /// A property is kept by pointer exactly if its type is a pointer in C++.
    pub open spec fn is_pointer_backed(&self) -> bool {
        self.type_ident.qt_type.spec_is_ptr()
    }

    /// Getter, setter and notify signal are all named.
    pub open spec fn spec_has_accessors(&self) -> bool {
        self.getter is Some && self.setter is Some && self.notify is Some
    }

    /// Getter and setter are named.
    pub open spec fn spec_has_getter_and_setter(&self) -> bool {
        self.getter is Some && self.setter is Some
    }

    #[verifier::when_used_as_spec(spec_has_accessors)]
    pub fn has_accessors(&self) -> (r: bool)
        ensures
            r == self.spec_has_accessors(),
    {
        self.getter.is_some() && self.setter.is_some() && self.notify.is_some()
    }

    #[verifier::when_used_as_spec(spec_has_getter_and_setter)]
    pub fn has_getter_and_setter(&self) -> (r: bool)
        ensures
            r == self.spec_has_getter_and_setter(),
    {
        self.getter.is_some() && self.setter.is_some()
    }

    /// The first rule that the property breaks where its C++ side is generated: all three
    /// accessors are named, and the property's C++ name, which is put into Pascal case, is
    /// ASCII.
    pub open spec fn violation(&self) -> Option<Violation> {
        if !self.spec_has_accessors() {
            Some(Violation::MissingAccessor)
        } else if !is_ascii_chars(self.ident.cpp_ident@) {
            Some(Violation::NonAsciiIdentifier)
        } else {
            None
        }
    }

    pub fn check(&self) -> (r: Option<Violation>)
        ensures
            r == self.violation(),
    {
        if !self.has_accessors() {
            Some(Violation::MissingAccessor)
        } else if !self.ident.cpp_ident.as_str().is_ascii() {
            Some(Violation::NonAsciiIdentifier)
        } else {
            None
        }
    }
}

impl Parameter {
    /// A parameter that refers to another object names it by a path of at least one part.
    pub open spec fn violation(&self) -> Option<Violation> {
        match self.type_ident.qt_type {
            QtTypes::CppObj { rust_type_idents, .. } => if rust_type_idents@.len() == 0 {
                Some(Violation::EmptyTypePath)
            } else {
                None
            },
            _ => None,
        }
    }

    pub fn check(&self) -> (r: Option<Violation>)
        ensures
            r == self.violation(),
    {
        match &self.type_ident.qt_type {
            QtTypes::CppObj { rust_type_idents, .. } => if rust_type_idents.len() == 0 {
                Some(Violation::EmptyTypePath)
            } else {
                None
            },
            _ => None,
        }
    }
}

/// The violation of the first property that has one.
pub open spec fn properties_violation(properties: Seq<Property>) -> Option<Violation>
    decreases properties.len(),
{
    if properties.len() == 0 {
        None
    } else if properties[0].violation() is Some {
        properties[0].violation()
    } else {
        properties_violation(properties.drop_first())
    }
}

/// The violation of the first parameter that has one.
pub open spec fn parameters_violation(parameters: Seq<Parameter>) -> Option<Violation>
    decreases parameters.len(),
{
    if parameters.len() == 0 {
        None
    } else if parameters[0].violation() is Some {
        parameters[0].violation()
    } else {
        parameters_violation(parameters.drop_first())
    }
}

/// The violation of the first invokable that has a parameter with one.
pub open spec fn invokables_violation(invokables: Seq<Invokable>) -> Option<Violation>
    decreases invokables.len(),
{
    if invokables.len() == 0 {
        None
    } else if parameters_violation(invokables[0].parameters@) is Some {
        parameters_violation(invokables[0].parameters@)
    } else {
        invokables_violation(invokables.drop_first())
    }
}

/// No property of the list breaks a rule exactly if the list as a whole has no violation.
pub proof fn lemma_properties_valid(properties: Seq<Property>)
    ensures
        properties_violation(properties) is None <==> forall|i: int|
            0 <= i < properties.len() ==> (#[trigger] properties[i]).violation() is None,
    decreases properties.len(),
{
    if properties.len() > 0 {
        let rest = properties.drop_first();
        lemma_properties_valid(rest);
        if properties_violation(properties) is None {
            assert forall|i: int| 0 <= i < properties.len() implies (
            #[trigger] properties[i]).violation() is None by {
                if i > 0 {
                    assert(properties[i] == rest[i - 1]);
                }
            }
        } else if properties[0].violation() is None {
            let j = choose|j: int|
                0 <= j < rest.len() && !((#[trigger] rest[j]).violation() is None);
            assert(properties[j + 1] == rest[j]);
        }
    }
}

/// No parameter of the list breaks a rule exactly if the list as a whole has no violation.
pub proof fn lemma_parameters_valid(parameters: Seq<Parameter>)
    ensures
        parameters_violation(parameters) is None <==> forall|i: int|
            0 <= i < parameters.len() ==> (#[trigger] parameters[i]).violation() is None,
    decreases parameters.len(),
{
    if parameters.len() > 0 {
        let rest = parameters.drop_first();
        lemma_parameters_valid(rest);
        if parameters_violation(parameters) is None {
            assert forall|i: int| 0 <= i < parameters.len() implies (
            #[trigger] parameters[i]).violation() is None by {
                if i > 0 {
                    assert(parameters[i] == rest[i - 1]);
                }
            }
        } else if parameters[0].violation() is None {
            let j = choose|j: int|
                0 <= j < rest.len() && !((#[trigger] rest[j]).violation() is None);
            assert(parameters[j + 1] == rest[j]);
        }
    }
}

/// No invokable of the list has a parameter that breaks a rule exactly if the list as a
/// whole has no violation.
pub proof fn lemma_invokables_valid(invokables: Seq<Invokable>)
    ensures
        invokables_violation(invokables) is None <==> forall|i: int|
            0 <= i < invokables.len() ==> parameters_violation(
                (#[trigger] invokables[i]).parameters@,
            ) is None,
    decreases invokables.len(),
{
    if invokables.len() > 0 {
        let rest = invokables.drop_first();
        lemma_invokables_valid(rest);
        if invokables_violation(invokables) is None {
            assert forall|i: int| 0 <= i < invokables.len() implies parameters_violation(
                (#[trigger] invokables[i]).parameters@,
            ) is None by {
                if i > 0 {
                    assert(invokables[i] == rest[i - 1]);
                }
            }
        } else if parameters_violation(invokables[0].parameters@) is None {
            let j = choose|j: int| 0 <= j < rest.len() && !(parameters_violation(
                (#[trigger] rest[j]).parameters@,
            ) is None);
            assert(invokables[j + 1] == rest[j]);
        }
    }
}

/// Looks for the first property that breaks a rule.
pub fn check_properties(properties: &[Property]) -> (r: Option<Violation>)
    ensures
        r == properties_violation(properties@),
{
    let mut i: usize = 0;
    assert(properties@.skip(0) =~= properties@);
    while i < properties.len()
        invariant
            i <= properties.len(),
            properties_violation(properties@) == properties_violation(properties@.skip(i as int)),
        decreases properties.len() - i,
    {
        let found = properties[i].check();
        proof {
            assert(properties@.skip(i as int)[0] == properties@[i as int]);
            assert(properties@.skip(i as int).drop_first() =~= properties@.skip(i + 1));
        }
        if found.is_some() {
            return found;
        }
        i += 1;
    }
    None
}

/// Looks for the first parameter that breaks a rule.
pub fn check_parameters(parameters: &[Parameter]) -> (r: Option<Violation>)
    ensures
        r == parameters_violation(parameters@),
{
    let mut i: usize = 0;
    assert(parameters@.skip(0) =~= parameters@);
    while i < parameters.len()
        invariant
            i <= parameters.len(),
            parameters_violation(parameters@) == parameters_violation(parameters@.skip(i as int)),
        decreases parameters.len() - i,
    {
        let found = parameters[i].check();
        proof {
            assert(parameters@.skip(i as int)[0] == parameters@[i as int]);
            assert(parameters@.skip(i as int).drop_first() =~= parameters@.skip(i + 1));
        }
        if found.is_some() {
            return found;
        }
        i += 1;
    }
    None
}

/// Looks for the first invokable with a parameter that breaks a rule.
pub fn check_invokables(invokables: &[Invokable]) -> (r: Option<Violation>)
    ensures
        r == invokables_violation(invokables@),
{
    let mut i: usize = 0;
    assert(invokables@.skip(0) =~= invokables@);
    while i < invokables.len()
        invariant
            i <= invokables.len(),
            invokables_violation(invokables@) == invokables_violation(invokables@.skip(i as int)),
        decreases invokables.len() - i,
    {
        let found = check_parameters(invokables[i].parameters.as_slice());
        proof {
            assert(invokables@.skip(i as int)[0] == invokables@[i as int]);
            assert(invokables@.skip(i as int).drop_first() =~= invokables@.skip(i + 1));
        }
        if found.is_some() {
            return found;
        }
        i += 1;
    }
    None
}

/// Whether a property of the list lacks its getter or its setter.
pub open spec fn accessors_missing(properties: Seq<Property>) -> bool {
    exists|i: int| 0 <= i < properties.len() && !(#[trigger] properties[i]).spec_has_getter_and_setter()
}

/// Looks for a property that lacks its getter or its setter.
pub fn check_accessors(properties: &[Property]) -> (r: bool)
    ensures
        r == accessors_missing(properties@),
{
    let mut i: usize = 0;
    while i < properties.len()
        invariant
            i <= properties.len(),
            forall|j: int| 0 <= j < i ==> (#[trigger] properties@[j]).spec_has_getter_and_setter(),
        decreases properties.len() - i,
    {
        if !properties[i].has_getter_and_setter() {
            return true;
        }
        i += 1;
    }
    false
}

impl ObjectDescriptor {
    /// Whether the object asks for the update-request hook.
    pub open spec fn handles_updates(&self) -> bool {
        self.handle_updates_impl is Some
    }

    /// The first rule that the description breaks where the C++ class is generated: the
    /// object's name, which is put into snake case, is ASCII, and no property breaks a rule.
    pub open spec fn cpp_violation(&self) -> Option<Violation> {
        if !is_ascii_chars(self.ident@) {
            Some(Violation::NonAsciiIdentifier)
        } else {
            properties_violation(self.properties@)
        }
    }

    /// The first rule that the description breaks where the Rust side is generated: the
    /// object's name, which is put into snake case, is ASCII, every property has its getter
    /// and its setter, and no parameter of an invokable breaks a rule.
    pub open spec fn rust_violation(&self) -> Option<Violation> {
        if !is_ascii_chars(self.ident@) {
            Some(Violation::NonAsciiIdentifier)
        } else if accessors_missing(self.properties@) {
            Some(Violation::MissingAccessor)
        } else {
            invokables_violation(self.invokables@)
        }
    }

    /// Looks for the first rule that the description breaks for the C++ class.
    pub fn check_cpp(&self) -> (r: Option<Violation>)
        ensures
            r == self.cpp_violation(),
    {
        if !self.ident.as_str().is_ascii() {
            return Some(Violation::NonAsciiIdentifier);
        }
        check_properties(self.properties.as_slice())
    }

    /// Looks for the first rule that the description breaks for the Rust side.
    pub fn check_rust(&self) -> (r: Option<Violation>)
        ensures
            r == self.rust_violation(),
    {
        if !self.ident.as_str().is_ascii() {
            return Some(Violation::NonAsciiIdentifier);
        }
        if check_accessors(self.properties.as_slice()) {
            return Some(Violation::MissingAccessor);
        }
        check_invokables(self.invokables.as_slice())
    }
}

} // verus!
