use cxx_qt_gen::descriptor::{
    CppRustIdent, Field, GenerationError, Invokable, ItemStruct, ModuleHead, ObjectDescriptor,
    Parameter, ParameterType, Property, Signal, Violation,
};
use cxx_qt_gen::gen_cpp::{
    generate_cpp_blocks, generate_invokable_cpp, generate_invokables_cpp,
    generate_parameters_cpp, generate_properties_cpp, generate_property_cpp,
    generate_qobject_cpp,
    generate_signal_cpp, generate_signals_cpp,
};
use cxx_qt_gen::types::QtTypes;

fn names(cpp: &str, rust: &str) -> CppRustIdent {
    CppRustIdent { cpp_ident: cpp.to_owned(), rust_ident: rust.to_owned() }
}

fn plain(qt_type: QtTypes) -> ParameterType {
    ParameterType { qt_type, is_mut: false, is_ref: false }
}

fn by_ref(qt_type: QtTypes) -> ParameterType {
    ParameterType { qt_type, is_mut: false, is_ref: true }
}

fn by_mut_ref(qt_type: QtTypes) -> ParameterType {
    ParameterType { qt_type, is_mut: true, is_ref: true }
}

fn owned(inner: QtTypes) -> QtTypes {
    QtTypes::UniquePtr { inner: Box::new(inner) }
}

fn cpp_obj() -> QtTypes {
    QtTypes::CppObj {
        cpp_type_idents_string: "MyObject".to_owned(),
        rust_type_idents: vec!["MyObjectQt".to_owned()],
    }
}

fn parameter(ident: &str, type_ident: ParameterType) -> Parameter {
    Parameter { ident: ident.to_owned(), type_ident }
}

/// A property whose accessors are named after the usual pattern.
fn property(rust: &str, cpp: &str, pascal: &str, qt_type: QtTypes) -> Property {
    Property {
        ident: names(cpp, rust),
        type_ident: plain(qt_type),
        getter: Some(names(&format!("get{}", pascal), rust)),
        setter: Some(names(&format!("set{}", pascal), &format!("set_{}", rust))),
        notify: Some(names(&format!("{}Changed", cpp), &format!("{}_changed", rust))),
    }
}

fn invokable(
    rust: &str,
    cpp: &str,
    wrapped: bool,
    mutable: bool,
    parameters: Vec<Parameter>,
    return_type: Option<ParameterType>,
) -> Invokable {
    Invokable {
        ident: names(cpp, rust),
        ident_wrapper: if wrapped {
            Some(names(&format!("{}Wrapper", cpp), &format!("{}_wrapper", rust)))
        } else {
            None
        },
        mutable,
        parameters,
        return_type,
        original_method: format!("pub fn {}(&self) {{}}", rust),
    }
}

fn signal(variant: &str, rust: &str, cpp: &str, pascal: &str, parameters: Vec<Parameter>) -> Signal {
    Signal {
        enum_ident: variant.to_owned(),
        signal_ident: names(cpp, rust),
        emit_ident: names(&format!("emit{}", pascal), &format!("emit_{}", rust)),
        parameters,
    }
}

fn unit_struct(ident: &str) -> ItemStruct {
    ItemStruct {
        attrs: vec!["#[derive(Default)]".to_owned()],
        vis: "pub".to_owned(),
        ident: ident.to_owned(),
        generics: String::new(),
        fields: Vec::<Field>::new(),
    }
}

fn field(name: &str, ty: &str) -> Field {
    Field { ident: Some(name.to_owned()), text: format!("{}: {}", name, ty) }
}

fn object(properties: Vec<Property>, invokables: Vec<Invokable>, signals: Vec<Signal>) -> ObjectDescriptor {
    ObjectDescriptor {
        ident: "MyObject".to_owned(),
        namespace: "cxx_qt::my_object".to_owned(),
        properties,
        invokables,
        signals,
        signal_ident: "Signal".to_owned(),
        handle_updates_impl: None,
        original_mod: ModuleHead { attrs: vec![], vis: String::new(), ident: "ffi".to_owned() },
        original_signal_enum: None,
        original_data_struct: unit_struct("Data"),
        original_rust_struct: unit_struct("MyObject"),
        original_passthrough_decls: vec![],
        cxx_items: vec![],
        methods: vec![],
    }
}

/// The invokables of the sample object.
fn sample_invokables() -> Vec<Invokable> {
    vec![
        invokable("invokable", "invokable", false, false, vec![], None),
        invokable(
            "invokable_cpp_obj",
            "invokableCppObj",
            true,
            false,
            vec![parameter("cpp", by_mut_ref(cpp_obj()))],
            None,
        ),
        invokable("invokable_mutable", "invokableMutable", false, true, vec![], None),
        invokable(
            "invokable_mutable_cpp_obj",
            "invokableMutableCppObj",
            true,
            true,
            vec![parameter("cpp", by_mut_ref(cpp_obj()))],
            None,
        ),
        invokable(
            "invokable_parameters",
            "invokableParameters",
            true,
            false,
            vec![
                parameter("opaque", by_ref(QtTypes::QColor)),
                parameter("trivial", by_ref(QtTypes::QPoint)),
                parameter("primitive", plain(QtTypes::I32)),
            ],
            None,
        ),
        invokable(
            "invokable_parameters_cpp_obj",
            "invokableParametersCppObj",
            true,
            false,
            vec![
                parameter("primitive", plain(QtTypes::I32)),
                parameter("cpp", by_mut_ref(cpp_obj())),
            ],
            None,
        ),
        invokable(
            "invokable_return_opaque",
            "invokableReturnOpaque",
            true,
            true,
            vec![],
            Some(plain(owned(QtTypes::QColor))),
        ),
        invokable(
            "invokable_return_primitive",
            "invokableReturnPrimitive",
            false,
            true,
            vec![],
            Some(plain(QtTypes::I32)),
        ),
        invokable(
            "invokable_return_static",
            "invokableReturnStatic",
            true,
            true,
            vec![],
            Some(plain(owned(QtTypes::QString))),
        ),
    ]
}

/// Holds a text against the lines that are expected, and names the first line that differs.
fn assert_lines(actual: &str, expected: &[&str]) {
    let actual_lines: Vec<&str> = actual.split('\n').collect();
    for (number, (found, wanted)) in actual_lines.iter().zip(expected.iter()).enumerate() {
        assert_eq!(found, wanted, "line {} differs", number + 1);
    }
    assert_eq!(actual_lines.len(), expected.len(), "the number of lines differs");
}

/// Checks that a text holds the given lines one directly behind the other.
fn assert_holds(actual: &str, lines: &[&str]) {
    let wanted = lines.join("\n");
    assert!(actual.contains(&wanted), "missing:\n{}", wanted);
}

const HEADER_START: [&str; 16] = [
    "#pragma once",
    "",
    "#include <memory>",
    "#include <mutex>",
    "",
    "#include \"cxx-qt-lib/include/convert.h\"",
    "#include \"cxx-qt-lib/include/qt_types.h\"",
    "",
    "namespace cxx_qt::my_object {",
    "",
    "class MyObjectRust;",
    "",
    "class MyObject : public QObject",
    "{",
    "  Q_OBJECT",
    "",
];

const HEADER_PUBLIC: [&str; 6] = [
    "public:",
    "  explicit MyObject(QObject* parent = nullptr);",
    "  ~MyObject();",
    "  const MyObjectRust& unsafeRust() const;",
    "  MyObjectRust& unsafeRustMut();",
    "",
];

const HEADER_PRIVATE: [&str; 5] = [
    "private:",
    "  rust::Box<MyObjectRust> m_rustObj;",
    "  std::mutex m_rustObjMutex;",
    "  bool m_initialised = false;",
    "",
];

const HEADER_END: [&str; 12] = [
    "};",
    "",
    "typedef MyObject CppObj;",
    "",
    "} // namespace cxx_qt::my_object",
    "",
    "namespace cxx_qt::my_object::cxx_qt_my_object {",
    "std::unique_ptr<MyObject>",
    "newCppObject();",
    "} // namespace cxx_qt::my_object::cxx_qt_my_object",
    "",
    "Q_DECLARE_METATYPE(cxx_qt::my_object::MyObject*)",
];

const SOURCE_START: [&str; 25] = [
    "#include \"cxx-qt-gen/include/my_object.cxxqt.h\"",
    "",
    "namespace cxx_qt::my_object {",
    "",
    "MyObject::MyObject(QObject* parent)",
    "  : QObject(parent)",
    "  , m_rustObj(cxx_qt::my_object::cxx_qt_my_object::createRs())",
    "{",
    "  cxx_qt::my_object::cxx_qt_my_object::initialiseCpp(*this);",
    "  m_initialised = true;",
    "}",
    "",
    "MyObject::~MyObject() = default;",
    "",
    "const MyObjectRust&",
    "MyObject::unsafeRust() const",
    "{",
    "  return *m_rustObj;",
    "}",
    "",
    "MyObjectRust&",
    "MyObject::unsafeRustMut()",
    "{",
    "  return *m_rustObj;",
    "}",
];

const SOURCE_END: [&str; 10] = [
    "} // namespace cxx_qt::my_object",
    "",
    "namespace cxx_qt::my_object::cxx_qt_my_object {",
    "std::unique_ptr<MyObject>",
    "newCppObject()",
    "{",
    "  return std::make_unique<MyObject>();",
    "}",
    "} // namespace cxx_qt::my_object::cxx_qt_my_object",
    "",
];

/// Puts the fixed parts of the header round the parts of one object.
fn whole_header(meta: &[&str], sections: &[&str], members: &[&str]) -> Vec<String> {
    let mut lines: Vec<String> = Vec::new();
    lines.extend(HEADER_START[..15].iter().map(|s| s.to_string()));
    lines.extend(meta.iter().map(|s| s.to_string()));
    lines.push(String::new());
    lines.extend(HEADER_PUBLIC.iter().map(|s| s.to_string()));
    lines.extend(sections.iter().map(|s| s.to_string()));
    lines.extend(HEADER_PRIVATE.iter().map(|s| s.to_string()));
    lines.extend(members.iter().map(|s| s.to_string()));
    lines.extend(HEADER_END.iter().map(|s| s.to_string()));
    lines.push(String::new());
    lines
}

/// Puts the fixed parts of the source round the definitions of one object.
fn whole_source(definitions: &[&str]) -> Vec<String> {
    let mut lines: Vec<String> = Vec::new();
    lines.extend(SOURCE_START.iter().map(|s| s.to_string()));
    lines.push(String::new());
    lines.extend(definitions.iter().map(|s| s.to_string()));
    lines.extend(SOURCE_END.iter().map(|s| s.to_string()));
    lines
}

fn assert_all_lines(actual: &str, expected: Vec<String>) {
    let expected: Vec<&str> = expected.iter().map(|s| s.as_str()).collect();
    assert_lines(actual, &expected);
}

#[test]
fn gen_cpp_generates_invokables() {
    let qobject = object(vec![], sample_invokables(), vec![]);
    let cpp_object = generate_qobject_cpp(&qobject).unwrap();
    assert_all_lines(
        &cpp_object.header,
        whole_header(
            &["  "],
            &[
                "public:",
                "  Q_INVOKABLE void invokable();",
                "  Q_INVOKABLE void invokableCppObj();",
                "  Q_INVOKABLE void invokableMutable();",
                "  Q_INVOKABLE void invokableMutableCppObj();",
                "  Q_INVOKABLE void invokableParameters(const QColor& opaque, const QPoint& trivial,  qint32 primitive);",
                "  Q_INVOKABLE void invokableParametersCppObj( qint32 primitive);",
                "  Q_INVOKABLE QColor invokableReturnOpaque();",
                "  Q_INVOKABLE qint32 invokableReturnPrimitive();",
                "  Q_INVOKABLE QString invokableReturnStatic();",
                "",
            ],
            &["  "],
        ),
    );
    assert_all_lines(
        &cpp_object.source,
        whole_source(&[
            "void MyObject::invokable()",
            "{",
            "    const std::lock_guard<std::mutex> guard(m_rustObjMutex);",
            "    m_rustObj->invokable();",
            "}",
            "",
            "void MyObject::invokableCppObj()",
            "{",
            "    const std::lock_guard<std::mutex> guard(m_rustObjMutex);",
            "    m_rustObj->invokableCppObjWrapper(*this);",
            "}",
            "",
            "void MyObject::invokableMutable()",
            "{",
            "    const std::lock_guard<std::mutex> guard(m_rustObjMutex);",
            "    m_rustObj->invokableMutable();",
            "}",
            "",
            "void MyObject::invokableMutableCppObj()",
            "{",
            "    const std::lock_guard<std::mutex> guard(m_rustObjMutex);",
            "    m_rustObj->invokableMutableCppObjWrapper(*this);",
            "}",
            "",
            "void MyObject::invokableParameters(const QColor& opaque, const QPoint& trivial,  qint32 primitive)",
            "{",
            "    const std::lock_guard<std::mutex> guard(m_rustObjMutex);",
            "    m_rustObj->invokableParametersWrapper(opaque, trivial, primitive);",
            "}",
            "",
            "void MyObject::invokableParametersCppObj( qint32 primitive)",
            "{",
            "    const std::lock_guard<std::mutex> guard(m_rustObjMutex);",
            "    m_rustObj->invokableParametersCppObjWrapper(primitive, *this);",
            "}",
            "",
            "QColor MyObject::invokableReturnOpaque()",
            "{",
            "    const std::lock_guard<std::mutex> guard(m_rustObjMutex);",
            "    return rust::cxxqtlib1::cxx_qt_convert<QColor, std::unique_ptr<QColor>>{}(m_rustObj->invokableReturnOpaqueWrapper());",
            "}",
            "",
            "qint32 MyObject::invokableReturnPrimitive()",
            "{",
            "    const std::lock_guard<std::mutex> guard(m_rustObjMutex);",
            "    return rust::cxxqtlib1::cxx_qt_convert<qint32, qint32>{}(m_rustObj->invokableReturnPrimitive());",
            "}",
            "",
            "QString MyObject::invokableReturnStatic()",
            "{",
            "    const std::lock_guard<std::mutex> guard(m_rustObjMutex);",
            "    return rust::cxxqtlib1::cxx_qt_convert<QString, std::unique_ptr<QString>>{}(m_rustObj->invokableReturnStaticWrapper());",
            "}",
            "",
            "",
        ]),
    );
}

#[test]
fn gen_cpp_generates_properties() {
    let qobject = object(
        vec![
            property("primitive", "primitive", "Primitive", QtTypes::I32),
            property("opaque", "opaque", "Opaque", owned(QtTypes::QColor)),
        ],
        vec![],
        vec![],
    );
    let cpp_object = generate_qobject_cpp(&qobject).unwrap();
    assert_all_lines(
        &cpp_object.header,
        whole_header(
            &[
                "  Q_PROPERTY(qint32 primitive READ getPrimitive WRITE setPrimitive NOTIFY primitiveChanged)",
                "  Q_PROPERTY(QColor opaque READ getOpaque WRITE setOpaque NOTIFY opaqueChanged)",
            ],
            &[
                "public:",
                "   qint32 getPrimitive() const;",
                "  ",
                "  const QColor& getOpaque() const;",
                "  ",
                "",
                "public Q_SLOTS:",
                "  void setPrimitive( qint32 value);",
                "  void setOpaque(const QColor& value);",
                "",
                "Q_SIGNALS:",
                "  void primitiveChanged();",
                "  void opaqueChanged();",
                "",
            ],
            &["  qint32 m_primitive;", "  QColor m_opaque;"],
        ),
    );
    assert_all_lines(
        &cpp_object.source,
        whole_source(&[
            "",
            " qint32",
            "MyObject::getPrimitive() const",
            "{",
            "    return m_primitive;",
            "}",
            "",
            "void",
            "MyObject::setPrimitive( qint32 value)",
            "{",
            "    if (!m_initialised) {",
            "        m_primitive = value;",
            "        return;",
            "    }",
            "",
            "    if (value != m_primitive) {",
            "        m_primitive = value;",
            "",
            "        const auto signalSuccess = QMetaObject::invokeMethod(this, \"primitiveChanged\", Qt::QueuedConnection);",
            "        Q_ASSERT(signalSuccess);",
            "    }",
            "}",
            "",
            "",
            "const QColor&",
            "MyObject::getOpaque() const",
            "{",
            "    return m_opaque;",
            "}",
            "",
            "void",
            "MyObject::setOpaque(const QColor& value)",
            "{",
            "    if (!m_initialised) {",
            "        m_opaque = value;",
            "        return;",
            "    }",
            "",
            "    if (value != m_opaque) {",
            "        m_opaque = value;",
            "",
            "        const auto signalSuccess = QMetaObject::invokeMethod(this, \"opaqueChanged\", Qt::QueuedConnection);",
            "        Q_ASSERT(signalSuccess);",
            "    }",
            "}",
            "",
            "",
            "",
        ]),
    );
}

#[test]
fn generates_pointer_property() {
    let nested = QtTypes::CppObj {
        cpp_type_idents_string: "cxx_qt::nested_object::NestedObject".to_owned(),
        rust_type_idents: vec!["crate".to_owned(), "nested_object".to_owned(), "CppObj".to_owned()],
    };
    let properties = vec![property("nested_item", "nestedItem", "NestedItem", nested)];
    let generated = generate_properties_cpp("MyObject", &properties).unwrap();
    assert_eq!(generated.len(), 1);
    let item = &generated[0];
    assert_eq!(
        item.header_members,
        vec![
            "cxx_qt::nested_object::NestedObject* m_nestedItem = nullptr;",
            "std::unique_ptr<cxx_qt::nested_object::NestedObject> m_ownedNestedItem;",
        ]
    );
    assert_eq!(
        item.header_meta,
        vec!["Q_PROPERTY(cxx_qt::nested_object::NestedObject* nestedItem READ getNestedItem WRITE setNestedItem NOTIFY nestedItemChanged)"]
    );
    assert_eq!(
        item.header_public,
        vec![
            " cxx_qt::nested_object::NestedObject* getNestedItem() const;",
            "std::unique_ptr<cxx_qt::nested_object::NestedObject> takeNestedItem();",
            "void giveNestedItem(std::unique_ptr<cxx_qt::nested_object::NestedObject> value);",
        ]
    );
    assert_eq!(item.header_signals, vec!["void nestedItemChanged();"]);
    assert_eq!(
        item.header_slots,
        vec!["void setNestedItem( cxx_qt::nested_object::NestedObject* value);"]
    );
    assert_eq!(item.source.len(), 2);
    assert_lines(
        &item.source[0],
        &[
            " cxx_qt::nested_object::NestedObject*",
            "MyObject::getNestedItem() const",
            "{",
            "    return m_nestedItem;",
            "}",
            "",
            "void",
            "MyObject::setNestedItem( cxx_qt::nested_object::NestedObject* value)",
            "{",
            "    if (value != m_nestedItem) {",
            "        if (m_ownedNestedItem) {",
            "            m_ownedNestedItem.reset();",
            "        }",
            "",
            "        m_nestedItem = value;",
            "",
            "        if (!m_initialised) {",
            "            return;",
            "        }",
            "",
            "        const auto signalSuccess = QMetaObject::invokeMethod(this, \"nestedItemChanged\", Qt::QueuedConnection);",
            "        Q_ASSERT(signalSuccess);",
            "    }",
            "}",
            "",
        ],
    );
    assert_lines(
        &item.source[1],
        &[
            "std::unique_ptr<cxx_qt::nested_object::NestedObject>",
            "MyObject::takeNestedItem()",
            "{",
            "  auto value = std::move(m_ownedNestedItem);",
            "  setNestedItem(nullptr);",
            "  return value;",
            "}",
            "",
            "void",
            "MyObject::giveNestedItem(std::unique_ptr<cxx_qt::nested_object::NestedObject> value)",
            "{",
            "  Q_ASSERT(value.get() != m_nestedItem);",
            "",
            "  m_ownedNestedItem = std::move(value);",
            "  m_nestedItem = m_ownedNestedItem.get();",
            "",
            "  const auto signalSuccess = QMetaObject::invokeMethod(this, \"nestedItemChanged\", Qt::QueuedConnection);",
            "  Q_ASSERT(signalSuccess);",
            "}",
            "",
        ],
    );
}

fn sample_signals() -> Vec<Signal> {
    vec![
        signal("Ready", "ready", "ready", "Ready", vec![]),
        signal(
            "DataChanged",
            "data_changed",
            "dataChanged",
            "DataChanged",
            vec![
                parameter("first", plain(QtTypes::I32)),
                parameter("second", plain(owned(QtTypes::QVariant))),
                parameter("third", plain(QtTypes::QPoint)),
            ],
        ),
    ]
}

#[test]
fn gen_cpp_generates_signals() {
    let qobject = object(vec![], vec![], sample_signals());
    let cpp_object = generate_qobject_cpp(&qobject).unwrap();
    assert_all_lines(
        &cpp_object.header,
        whole_header(
            &["  "],
            &[
                "public:",
                "  void emitReady();",
                "  ",
                "  void emitDataChanged(qint32 first, std::unique_ptr<QVariant> second, std::unique_ptr<QPoint> third);",
                "  ",
                "",
                "Q_SIGNALS:",
                "  void ready();",
                "  void dataChanged( qint32 first, const QVariant& second, const QPoint& third);",
                "",
            ],
            &["  "],
        ),
    );
    assert_all_lines(
        &cpp_object.source,
        whole_source(&[
            "",
            "void",
            "MyObject::emitReady()",
            "{",
            "    const auto signalSuccess = QMetaObject::invokeMethod(",
            "        this, [this]() { Q_EMIT ready(); }, Qt::QueuedConnection);",
            "    Q_ASSERT(signalSuccess);",
            "}",
            "",
            "",
            "void",
            "MyObject::emitDataChanged(qint32 first, std::unique_ptr<QVariant> second, std::unique_ptr<QPoint> third)",
            "{",
            "    const auto signalSuccess = QMetaObject::invokeMethod(",
            "        this, [this, first = std::move(first), second = std::move(second), third = std::move(third)]() { Q_EMIT dataChanged(rust::cxxqtlib1::cxx_qt_convert< qint32, qint32>{}(first), rust::cxxqtlib1::cxx_qt_convert<const QVariant&, std::unique_ptr<QVariant>>{}(second), rust::cxxqtlib1::cxx_qt_convert<const QPoint&, std::unique_ptr<QPoint>>{}(third)); }, Qt::QueuedConnection);",
            "    Q_ASSERT(signalSuccess);",
            "}",
            "",
            "",
        ]),
    );
}

#[test]
fn signal_has_two_entry_points_that_differ_on_opaque_types_only() {
    let signals = sample_signals();
    let generated = generate_signals_cpp("MyObject", &signals).unwrap();
    assert_eq!(generated.len(), 2);
    for item in &generated {
        assert_eq!(item.header_public.len(), 1);
        assert_eq!(item.header_signals.len(), 1);
    }
    let one = generate_signal_cpp(
        "MyObject",
        &signal(
            "Mixed",
            "mixed",
            "mixed",
            "Mixed",
            vec![
                parameter("flag", plain(QtTypes::Bool)),
                parameter("text", plain(QtTypes::QString)),
            ],
        ),
    );
    assert_eq!(one.header_public, vec!["void emitMixed(bool flag, std::unique_ptr<QString> text);"]);
    assert_eq!(one.header_signals, vec!["void mixed( bool flag, const QString& text);"]);
}

#[test]
fn gen_cpp_generates_handlers() {
    let mut qobject = object(
        vec![
            property("number", "number", "Number", QtTypes::I32),
            property("string", "string", "String", owned(QtTypes::QString)),
        ],
        vec![],
        vec![],
    );
    qobject.handle_updates_impl = Some(
        "impl UpdateRequestHandler<CppObj<'_>> for MyObject { fn handle_update_request(&mut self, _cpp: &mut CppObj) {} }"
            .to_owned(),
    );
    let cpp_object = generate_qobject_cpp(&qobject).unwrap();
    assert_holds(
        &cpp_object.header,
        &[
            "  std::unique_ptr<rust::cxxqtlib1::UpdateRequester> updateRequester();",
            "  Q_INVOKABLE void updateState();",
            "",
            "public Q_SLOTS:",
        ],
    );
    assert_holds(
        &cpp_object.source,
        &[
            "std::unique_ptr<rust::cxxqtlib1::UpdateRequester> MyObject::updateRequester() {",
            "    return std::make_unique<rust::cxxqtlib1::UpdateRequester>(this, \"updateState\");",
            "}",
            "",
            "void MyObject::updateState() {",
            "    const std::lock_guard<std::mutex> guard(m_rustObjMutex);",
            "    m_rustObj->handleUpdateRequest(*this);",
            "}",
            "",
        ],
    );
    let blocks = generate_cpp_blocks(&qobject).unwrap();
    assert_eq!(blocks.methods.len(), 6);
    assert_eq!(blocks.metaobjects.len(), 2);
}

#[test]
fn update_hook_is_absent_unless_asked_for() {
    let qobject = object(vec![property("number", "number", "Number", QtTypes::I32)], vec![], vec![]);
    let cpp_object = generate_qobject_cpp(&qobject).unwrap();
    assert!(!cpp_object.header.contains("updateRequester"));
    assert!(!cpp_object.header.contains("updateState"));
    assert!(!cpp_object.source.contains("updateRequester"));
    assert!(!cpp_object.source.contains("updateState"));
    assert!(!cpp_object.source.contains("UpdateRequester"));
    let blocks = generate_cpp_blocks(&qobject).unwrap();
    assert_eq!(blocks.methods.len(), 2);
}

#[test]
fn gen_cpp_generates_naming() {
    let qobject = object(
        vec![property("property_name", "propertyName", "PropertyName", QtTypes::I32)],
        vec![invokable("invokable_name", "invokableName", false, false, vec![], None)],
        vec![],
    );
    let cpp_object = generate_qobject_cpp(&qobject).unwrap();
    assert_holds(
        &cpp_object.header,
        &["  Q_PROPERTY(qint32 propertyName READ getPropertyName WRITE setPropertyName NOTIFY propertyNameChanged)"],
    );
    assert_holds(
        &cpp_object.header,
        &["public:", "   qint32 getPropertyName() const;", "  ", "  Q_INVOKABLE void invokableName();", ""],
    );
    assert_holds(&cpp_object.header, &["public Q_SLOTS:", "  void setPropertyName( qint32 value);", ""]);
    assert_holds(&cpp_object.header, &["Q_SIGNALS:", "  void propertyNameChanged();", ""]);
    assert_holds(&cpp_object.header, &["  qint32 m_propertyName;", "};"]);
    assert_holds(
        &cpp_object.source,
        &["void MyObject::invokableName()", "{", "    const std::lock_guard<std::mutex> guard(m_rustObjMutex);", "    m_rustObj->invokableName();", "}"],
    );
    assert_holds(&cpp_object.source, &["MyObject::getPropertyName() const", "{", "    return m_propertyName;", "}"]);
}

#[test]
fn gen_cpp_generates_types_primitive_property() {
    let types = [
        ("boolean", "Boolean", QtTypes::Bool, "bool"),
        ("float_32", "Float32", QtTypes::F32, "float"),
        ("float_64", "Float64", QtTypes::F64, "double"),
        ("int_8", "Int8", QtTypes::I8, "qint8"),
        ("int_16", "Int16", QtTypes::I16, "qint16"),
        ("int_32", "Int32", QtTypes::I32, "qint32"),
        ("uint_8", "Uint8", QtTypes::U8, "quint8"),
        ("uint_16", "Uint16", QtTypes::U16, "quint16"),
        ("uint_32", "Uint32", QtTypes::U32, "quint32"),
    ];
    let mut properties = Vec::new();
    for (rust, pascal, qt_type, _) in types.iter() {
        let cpp = format!("{}{}", &pascal[..1].to_lowercase(), &pascal[1..]);
        properties.push(property(rust, &cpp, pascal, *qt_type_copy(qt_type)));
    }
    let qobject = object(properties, vec![], vec![]);
    let cpp_object = generate_qobject_cpp(&qobject).unwrap();
    for (_, pascal, _, native) in types.iter() {
        let cpp = format!("{}{}", &pascal[..1].to_lowercase(), &pascal[1..]);
        assert_holds(
            &cpp_object.header,
            &[&format!(
                "  Q_PROPERTY({native} {cpp} READ get{pascal} WRITE set{pascal} NOTIFY {cpp}Changed)"
            )],
        );
        assert_holds(&cpp_object.header, &[&format!("   {native} get{pascal}() const;")]);
        assert_holds(&cpp_object.header, &[&format!("  void set{pascal}( {native} value);")]);
        assert_holds(&cpp_object.header, &[&format!("  void {cpp}Changed();")]);
        assert_holds(&cpp_object.header, &[&format!("  {native} m_{cpp};")]);
        assert_holds(
            &cpp_object.source,
            &[
                &format!(" {native}"),
                &format!("MyObject::get{pascal}() const"),
                "{",
                &format!("    return m_{cpp};"),
                "}",
                "",
                "void",
                &format!("MyObject::set{pascal}( {native} value)"),
                "{",
                "    if (!m_initialised) {",
                &format!("        m_{cpp} = value;"),
                "        return;",
                "    }",
            ],
        );
    }
}

fn qt_type_copy(qt_type: &QtTypes) -> Box<QtTypes> {
    Box::new(match qt_type {
        QtTypes::Bool => QtTypes::Bool,
        QtTypes::F32 => QtTypes::F32,
        QtTypes::F64 => QtTypes::F64,
        QtTypes::I8 => QtTypes::I8,
        QtTypes::I16 => QtTypes::I16,
        QtTypes::I32 => QtTypes::I32,
        QtTypes::U8 => QtTypes::U8,
        QtTypes::U16 => QtTypes::U16,
        QtTypes::U32 => QtTypes::U32,
        QtTypes::QColor => QtTypes::QColor,
        QtTypes::QDate => QtTypes::QDate,
        QtTypes::QDateTime => QtTypes::QDateTime,
        QtTypes::QPoint => QtTypes::QPoint,
        QtTypes::QPointF => QtTypes::QPointF,
        QtTypes::QRect => QtTypes::QRect,
        QtTypes::QRectF => QtTypes::QRectF,
        QtTypes::QSize => QtTypes::QSize,
        QtTypes::QSizeF => QtTypes::QSizeF,
        QtTypes::QString => QtTypes::QString,
        QtTypes::QTime => QtTypes::QTime,
        QtTypes::QUrl => QtTypes::QUrl,
        QtTypes::QVariant => QtTypes::QVariant,
        _ => unreachable!(),
    })
}

const QT_TYPES: [(&str, &str, QtTypes, &str); 13] = [
    ("color", "Color", QtTypes::QColor, "QColor"),
    ("date", "Date", QtTypes::QDate, "QDate"),
    ("date_time", "DateTime", QtTypes::QDateTime, "QDateTime"),
    ("point", "Point", QtTypes::QPoint, "QPoint"),
    ("pointf", "Pointf", QtTypes::QPointF, "QPointF"),
    ("rect", "Rect", QtTypes::QRect, "QRect"),
    ("rectf", "Rectf", QtTypes::QRectF, "QRectF"),
    ("size", "Size", QtTypes::QSize, "QSize"),
    ("sizef", "Sizef", QtTypes::QSizeF, "QSizeF"),
    ("string", "String", QtTypes::QString, "QString"),
    ("time", "Time", QtTypes::QTime, "QTime"),
    ("url", "Url", QtTypes::QUrl, "QUrl"),
    ("variant", "Variant", QtTypes::QVariant, "QVariant"),
];

#[test]
fn gen_cpp_generates_types_qt_property() {
    let mut properties = Vec::new();
    for (rust, pascal, qt_type, _) in QT_TYPES.iter() {
        let cpp = format!("{}{}", &pascal[..1].to_lowercase(), &pascal[1..]);
        properties.push(property(rust, &cpp, pascal, *qt_type_copy(qt_type)));
    }
    let qobject = object(properties, vec![], vec![]);
    let cpp_object = generate_qobject_cpp(&qobject).unwrap();
    for (_, pascal, _, native) in QT_TYPES.iter() {
        let cpp = format!("{}{}", &pascal[..1].to_lowercase(), &pascal[1..]);
        assert_holds(
            &cpp_object.header,
            &[&format!(
                "  Q_PROPERTY({native} {cpp} READ get{pascal} WRITE set{pascal} NOTIFY {cpp}Changed)"
            )],
        );
        assert_holds(&cpp_object.header, &[&format!("  const {native}& get{pascal}() const;")]);
        assert_holds(&cpp_object.header, &[&format!("  void set{pascal}(const {native}& value);")]);
        assert_holds(&cpp_object.header, &[&format!("  void {cpp}Changed();")]);
        assert_holds(&cpp_object.header, &[&format!("  {native} m_{cpp};")]);
        assert_holds(
            &cpp_object.source,
            &[
                &format!("const {native}&"),
                &format!("MyObject::get{pascal}() const"),
                "{",
                &format!("    return m_{cpp};"),
                "}",
                "",
                "void",
                &format!("MyObject::set{pascal}(const {native}& value)"),
                "{",
            ],
        );
    }
}

#[test]
fn gen_cpp_generates_types_qt_invokable() {
    let mut invokables = Vec::new();
    for (rust, pascal, qt_type, _) in QT_TYPES.iter() {
        invokables.push(invokable(
            &format!("test_{}", rust),
            &format!("test{}", pascal),
            true,
            false,
            vec![
                parameter("_cpp", by_mut_ref(cpp_obj())),
                parameter(rust, by_ref(*qt_type_copy(qt_type))),
            ],
            Some(plain(owned(*qt_type_copy(qt_type)))),
        ));
    }
    let qobject = object(vec![], invokables, vec![]);
    let cpp_object = generate_qobject_cpp(&qobject).unwrap();
    for (rust, pascal, _, native) in QT_TYPES.iter() {
        assert_holds(
            &cpp_object.header,
            &[&format!("  Q_INVOKABLE {native} test{pascal}(const {native}& {rust});")],
        );
        assert_holds(
            &cpp_object.source,
            &[
                &format!("{native} MyObject::test{pascal}(const {native}& {rust})"),
                "{",
                "    const std::lock_guard<std::mutex> guard(m_rustObjMutex);",
                &format!("    return rust::cxxqtlib1::cxx_qt_convert<{native}, std::unique_ptr<{native}>>{{}}(m_rustObj->test{pascal}Wrapper(*this, {rust}));"),
                "}",
            ],
        );
    }
}

#[test]
fn invokable_with_opaque_return_locks_calls_and_converts() {
    let returns_opaque = invokable(
        "invokable_return_opaque",
        "invokableReturnOpaque",
        true,
        true,
        vec![],
        Some(plain(owned(QtTypes::QColor))),
    );
    let generated = generate_invokable_cpp("MyObject", &returns_opaque);
    assert_eq!(generated.header, "Q_INVOKABLE QColor invokableReturnOpaque();");
    let lines: Vec<&str> = generated.source.split('\n').collect();
    assert_eq!(
        lines,
        vec![
            "QColor MyObject::invokableReturnOpaque()",
            "{",
            "    const std::lock_guard<std::mutex> guard(m_rustObjMutex);",
            "    return rust::cxxqtlib1::cxx_qt_convert<QColor, std::unique_ptr<QColor>>{}(m_rustObj->invokableReturnOpaqueWrapper());",
            "}",
            "",
        ]
    );
    let lock = generated.source.find("std::lock_guard").unwrap();
    let call = generated.source.find("m_rustObj->").unwrap();
    let convert = generated.source.find("cxx_qt_convert").unwrap();
    assert!(lock < convert && convert < call);
}

#[test]
fn invokables_keep_their_order() {
    let invokables = sample_invokables();
    let generated = generate_invokables_cpp("Other", &invokables).unwrap();
    assert_eq!(generated.len(), 9);
    assert_eq!(generated[0].header, "Q_INVOKABLE void invokable();");
    assert_eq!(generated[8].header, "Q_INVOKABLE QString invokableReturnStatic();");
    assert!(generated[2].source.starts_with("void Other::invokableMutable()\n"));
}

#[test]
fn parameters_that_stand_for_the_object_are_called_this() {
    let parameters = vec![
        parameter("primitive", plain(QtTypes::I32)),
        parameter("cpp", by_mut_ref(cpp_obj())),
        parameter("text", by_ref(QtTypes::QString)),
    ];
    let generated = generate_parameters_cpp(&parameters).unwrap();
    assert_eq!(generated.len(), 3);
    assert_eq!(generated[0].ident, "primitive");
    assert_eq!(generated[1].ident, "this");
    assert_eq!(generated[2].ident, "text");
    assert_eq!(generated[0].type_ident.type_ident(), "qint32");
    assert!(generated[1].type_ident.is_this());
    assert_eq!(generated[2].type_ident.type_ident(), "QString");
    assert!(generate_parameters_cpp(&[]).unwrap().is_empty());
}

#[test]
fn property_without_accessor_is_refused() {
    let mut broken = property("number", "number", "Number", QtTypes::I32);
    broken.setter = None;
    let properties = vec![property("first", "first", "First", QtTypes::Bool), broken];
    assert!(matches!(
        generate_properties_cpp("MyObject", &properties),
        Err(GenerationError::Descriptor(Violation::MissingAccessor))
    ));
    let qobject = object(properties, vec![], vec![]);
    assert!(matches!(
        generate_qobject_cpp(&qobject),
        Err(GenerationError::Descriptor(Violation::MissingAccessor))
    ));
    assert!(matches!(
        generate_cpp_blocks(&qobject),
        Err(GenerationError::Descriptor(Violation::MissingAccessor))
    ));
}

#[test]
fn names_outside_ascii_are_refused() {
    let properties = vec![property("größe", "größe", "Größe", QtTypes::I32)];
    assert!(matches!(
        generate_properties_cpp("MyObject", &properties),
        Err(GenerationError::Descriptor(Violation::NonAsciiIdentifier))
    ));
    let mut qobject = object(vec![], vec![], vec![]);
    qobject.ident = "Größe".to_owned();
    assert!(matches!(
        generate_qobject_cpp(&qobject),
        Err(GenerationError::Descriptor(Violation::NonAsciiIdentifier))
    ));
}

#[test]
fn first_violation_is_reported() {
    let mut no_getter = property("second", "second", "Second", QtTypes::I32);
    no_getter.getter = None;
    let properties = vec![property("größe", "größe", "Größe", QtTypes::I32), no_getter];
    assert!(matches!(
        generate_properties_cpp("MyObject", &properties),
        Err(GenerationError::Descriptor(Violation::NonAsciiIdentifier))
    ));
    let mut both = property("größe", "größe", "Größe", QtTypes::I32);
    both.notify = None;
    assert!(matches!(
        generate_properties_cpp("MyObject", &[both]),
        Err(GenerationError::Descriptor(Violation::MissingAccessor))
    ));
}

#[test]
fn object_without_namespace_stands_at_the_top() {
    let mut qobject = object(vec![], vec![], vec![]);
    qobject.namespace = String::new();
    let cpp_object = generate_qobject_cpp(&qobject).unwrap();
    assert!(!cpp_object.header.contains("namespace cxx_qt::my_object"));
    assert_holds(
        &cpp_object.header,
        &[
            "namespace cxx_qt_my_object {",
            "std::unique_ptr<MyObject>",
            "newCppObject();",
            "} // namespace cxx_qt_my_object",
            "",
            "Q_DECLARE_METATYPE(MyObject*)",
            "",
        ],
    );
    assert_holds(&cpp_object.source, &["  , m_rustObj(cxx_qt_my_object::createRs())"]);
}

#[test]
fn accessors_are_generated_under_the_names_that_are_given() {
    let mut odd = property("number", "number", "Number", QtTypes::I32);
    odd.getter = Some(names("readNumber", "read_number"));
    odd.setter = Some(names("write_number", "writeNumber"));
    odd.notify = Some(names("numberWasChanged", "number_was_changed"));
    let generated = generate_properties_cpp("MyObject", &[odd]).unwrap();
    assert_eq!(generated.len(), 1);
    assert_eq!(
        generated[0].header_meta,
        vec!["Q_PROPERTY(qint32 number READ readNumber WRITE write_number NOTIFY numberWasChanged)"]
    );
    assert_eq!(generated[0].header_public, vec![" qint32 readNumber() const;"]);
    assert_eq!(generated[0].header_slots, vec!["void write_number( qint32 value);"]);
    assert_eq!(generated[0].header_signals, vec!["void numberWasChanged();"]);
    assert!(generated[0].source[0].contains("MyObject::readNumber() const\n"));
    assert!(generated[0].source[0].contains("MyObject::write_number( qint32 value)\n"));
    assert!(generated[0].source[0].contains("invokeMethod(this, \"numberWasChanged\", Qt::QueuedConnection);"));
}

#[test]
fn every_complete_property_gives_one_item() {
    let properties = vec![
        property("b", "b", "B", QtTypes::Bool),
        property("a", "a", "A", owned(QtTypes::QUrl)),
        property("c", "c", "C", cpp_obj()),
    ];
    let generated = generate_properties_cpp("MyObject", &properties).unwrap();
    assert_eq!(generated.len(), 3);
    let getters = [" bool getB() const;", "const QUrl& getA() const;", " MyObject* getC() const;"];
    for (item, getter) in generated.iter().zip(getters) {
        assert_eq!(item.header_meta.len(), 1);
        assert_eq!(item.header_signals.len(), 1);
        assert_eq!(item.header_slots.len(), 1);
        assert_eq!(item.header_public[0], getter);
    }
    assert_eq!(generated[0].header_public.len(), 1);
    assert_eq!(generated[2].header_public.len(), 3);
}

#[test]
fn class_is_generated_whatever_the_paths_of_the_invokables() {
    let no_path = QtTypes::CppObj {
        cpp_type_idents_string: "MyObject".to_owned(),
        rust_type_idents: vec![],
    };
    let qobject = object(
        vec![],
        vec![invokable("run", "run", true, false, vec![parameter("cpp", by_mut_ref(no_path))], None)],
        vec![],
    );
    let cpp_object = generate_qobject_cpp(&qobject).unwrap();
    assert!(cpp_object.header.contains("  Q_INVOKABLE void run();\n"));
    assert!(cpp_object.source.contains("    m_rustObj->runWrapper(*this);\n"));
}

#[test]
fn property_is_generated_from_the_pascal_name_that_is_given() {
    let nested = QtTypes::CppObj {
        cpp_type_idents_string: "Nested".to_owned(),
        rust_type_idents: vec!["NestedQt".to_owned()],
    };
    let pointer = property("nested", "nested", "Nested", nested);
    let generated = generate_property_cpp("MyObject", &pointer, "GivenName").unwrap();
    assert_eq!(
        generated.header_members,
        vec!["Nested* m_nested = nullptr;", "std::unique_ptr<Nested> m_ownedGivenName;"]
    );
    assert_eq!(
        generated.header_public,
        vec![
            " Nested* getNested() const;",
            "std::unique_ptr<Nested> takeGivenName();",
            "void giveGivenName(std::unique_ptr<Nested> value);",
        ]
    );
    assert!(generated.source[0].contains("        if (m_ownedGivenName) {\n            m_ownedGivenName.reset();\n        }\n"));
    assert!(generated.source[1].starts_with("std::unique_ptr<Nested>\nMyObject::takeGivenName()\n{\n  auto value = std::move(m_ownedGivenName);\n  setNested(nullptr);\n"));
    assert!(generated.source[1].contains("\nvoid\nMyObject::giveGivenName(std::unique_ptr<Nested> value)\n{\n  Q_ASSERT(value.get() != m_nested);\n\n  m_ownedGivenName = std::move(value);\n  m_nested = m_ownedGivenName.get();\n"));

    let value = property("count", "count", "Count", QtTypes::U16);
    let generated = generate_property_cpp("MyObject", &value, "Unused").unwrap();
    assert_eq!(generated.header_members, vec!["quint16 m_count;"]);
    assert_eq!(generated.header_public, vec![" quint16 getCount() const;"]);
    assert_eq!(generated.source.len(), 1);
    assert!(!generated.source[0].contains("Unused"));

    let mut incomplete = property("count", "count", "Count", QtTypes::U16);
    incomplete.notify = None;
    assert!(matches!(
        generate_property_cpp("MyObject", &incomplete, "Count"),
        Err(GenerationError::Descriptor(Violation::MissingAccessor))
    ));
    let foreign = property("größe", "größe", "Größe", QtTypes::U16);
    assert!(generate_property_cpp("MyObject", &foreign, "Größe").is_ok());
}
