use crate::generator::{CppBlocksText, CppFragmentPair, FragmentText, GeneratedCppBlocks};
use crate::text::{join, join_strings, push_string};
use vstd::prelude::*;

verus! {

/// The header parts of a list of pieces.
pub open spec fn headers_of(pairs: Seq<FragmentText>) -> Seq<Seq<char>> {
    Seq::new(pairs.len(), |i: int| pairs[i].header)
}

/// The source parts of a list of pieces.
pub open spec fn sources_of(pairs: Seq<FragmentText>) -> Seq<Seq<char>> {
    Seq::new(pairs.len(), |i: int| pairs[i].source)
}

/// The line that opens the namespace of the class, where it has one.
pub open spec fn namespace_start(namespace: Seq<char>) -> Seq<char> {
    if namespace.len() == 0 {
        ""@
    } else {
        "namespace "@ + namespace + " {"@
    }
}

/// The line that closes the namespace of the class, where it has one.
pub open spec fn namespace_end(namespace: Seq<char>) -> Seq<char> {
    if namespace.len() == 0 {
        ""@
    } else {
        "} // namespace "@ + namespace
    }
}

/// The name of the class with its namespace.
pub open spec fn qualified_ident(blocks: CppBlocksText) -> Seq<char> {
    if blocks.namespace.len() == 0 {
        blocks.ident
    } else {
        blocks.namespace + "::"@ + blocks.ident
    }
}

/// The constructor, the destructor and the two accessors of the Rust object, as they are
/// defined in the source. The constructor creates the Rust object, lets it initialise the
/// C++ object and only then marks the object as initialised.
pub open spec fn source_prelude(blocks: CppBlocksText) -> Seq<char> {
    "#include \"cxx-qt-gen/include/"@ + blocks.cxx_stem + ".cxxqt.h\"\n"@ + "\n"@
        + namespace_start(blocks.namespace) + "\n"@ + "\n"@ + blocks.ident + "::"@ + blocks.ident
        + "(QObject* parent)\n"@ + "  : QObject(parent)\n"@ + "  , m_rustObj("@
        + blocks.namespace_internals + "::createRs())\n"@ + "{\n"@ + "  "@
        + blocks.namespace_internals + "::initialiseCpp(*this);\n"@
        + "  m_initialised = true;\n"@ + "}\n"@ + "\n"@ + blocks.ident + "::~"@ + blocks.ident
        + "() = default;\n"@ + "\n"@ + "const "@ + blocks.rust_ident + "&\n"@ + blocks.ident
        + "::unsafeRust() const\n"@ + "{\n"@ + "  return *m_rustObj;\n"@ + "}\n"@ + "\n"@
        + blocks.rust_ident + "&\n"@ + blocks.ident + "::unsafeRustMut()\n"@ + "{\n"@
        + "  return *m_rustObj;\n"@ + "}\n"@ + "\n"@
}

/// The function that creates the C++ object, as it is defined in the source.
pub open spec fn source_factory(blocks: CppBlocksText) -> Seq<char> {
    "namespace "@ + blocks.namespace_internals + " {\n"@ + "std::unique_ptr<"@ + blocks.ident
        + ">\n"@ + "newCppObject()\n"@ + "{\n"@ + "  return std::make_unique<"@ + blocks.ident
        + ">();\n"@ + "}\n"@ + "} // namespace "@ + blocks.namespace_internals + "\n"@
}

/// The whole C++ source: the prelude, the sources of the methods and of the slots, one line
/// apart, the end of the namespace, and the factory.
pub open spec fn source_text(blocks: CppBlocksText) -> Seq<char> {
    source_prelude(blocks) + join(sources_of(blocks.methods), "\n"@) + "\n"@ + join(
        sources_of(blocks.slots),
        "\n"@,
    ) + "\n"@ + namespace_end(blocks.namespace) + "\n"@ + "\n"@ + source_factory(blocks)
}

/// A section of the class that has a title of its own, or nothing where the section would
/// be empty.
pub open spec fn header_section(title: Seq<char>, lines: Seq<Seq<char>>) -> Seq<char> {
    if lines.len() == 0 {
        ""@
    } else {
        title + "\n"@ + "  "@ + join(lines, "\n  "@) + "\n"@ + "\n"@
    }
}

/// The declaration of the class up to its generated methods.
pub open spec fn header_prelude(blocks: CppBlocksText) -> Seq<char> {
    "#pragma once\n"@ + "\n"@ + "#include <memory>\n"@ + "#include <mutex>\n"@ + "\n"@
        + "#include \"cxx-qt-lib/include/convert.h\"\n"@
        + "#include \"cxx-qt-lib/include/qt_types.h\"\n"@ + "\n"@ + namespace_start(
        blocks.namespace,
    ) + "\n"@ + "\n"@ + "class "@ + blocks.rust_ident + ";\n"@ + "\n"@ + "class "@
        + blocks.ident + " : public QObject\n"@ + "{\n"@ + "  Q_OBJECT\n"@ + "  "@ + join(
        blocks.metaobjects,
        "\n  "@,
    ) + "\n"@ + "\n"@ + "public:\n"@ + "  explicit "@ + blocks.ident
        + "(QObject* parent = nullptr);\n"@ + "  ~"@ + blocks.ident + "();\n"@ + "  const "@
        + blocks.rust_ident + "& unsafeRust() const;\n"@ + "  "@ + blocks.rust_ident
        + "& unsafeRustMut();\n"@ + "\n"@
}

/// The private part of the class: the Rust object, the mutex that serialises the calls into
/// it, the mark of initialisation, and the members of the properties.
pub open spec fn header_private(blocks: CppBlocksText) -> Seq<char> {
    "private:\n"@ + "  rust::Box<"@ + blocks.rust_ident + "> m_rustObj;\n"@
        + "  std::mutex m_rustObjMutex;\n"@ + "  bool m_initialised = false;\n"@ + "\n"@ + "  "@
        + join(blocks.members, "\n  "@) + "\n"@ + "};\n"@ + "\n"@
}

/// What follows the class in the header.
pub open spec fn header_epilogue(blocks: CppBlocksText) -> Seq<char> {
    "typedef "@ + blocks.ident + " CppObj;\n"@ + "\n"@ + namespace_end(blocks.namespace) + "\n"@
        + "\n"@ + "namespace "@ + blocks.namespace_internals + " {\n"@ + "std::unique_ptr<"@
        + blocks.ident + ">\n"@ + "newCppObject();\n"@ + "} // namespace "@
        + blocks.namespace_internals + "\n"@ + "\n"@ + "Q_DECLARE_METATYPE("@ + qualified_ident(
        blocks,
    ) + "*)\n"@
}

/// The whole C++ header: the class with its registrations, its methods, its slots, its
/// signals and its members, in this order.
pub open spec fn header_text(blocks: CppBlocksText) -> Seq<char> {
    header_prelude(blocks) + header_section("public:"@, headers_of(blocks.methods))
        + header_section("public Q_SLOTS:"@, headers_of(blocks.slots)) + header_section(
        "Q_SIGNALS:"@,
        blocks.signals,
    ) + header_private(blocks) + header_epilogue(blocks)
}

/// Gives the header part of a piece.
pub fn pair_as_header(pair: &CppFragmentPair) -> (r: String)
    ensures
        r@ == pair.header@,
{
    pair.header.clone()
}

/// Gives the source part of a piece.
pub fn pair_as_source(pair: &CppFragmentPair) -> (r: String)
    ensures
        r@ == pair.source@,
{
    pair.source.clone()
}

/// Collects the header parts of a list of pieces.
fn collect_headers(pairs: &Vec<CppFragmentPair>) -> (r: Vec<String>)
    ensures
        r.deep_view() == headers_of(pairs.deep_view()),
{
    let mut out: Vec<String> = Vec::new();
    let mut i: usize = 0;
    while i < pairs.len()
        invariant
            i <= pairs.len(),
            out.deep_view() =~= headers_of(pairs.deep_view().take(i as int)),
        decreases pairs.len() - i,
    {
        push_string(&mut out, pair_as_header(&pairs[i]));
        i += 1;
    }
    assert(pairs.deep_view().take(pairs.len() as int) =~= pairs.deep_view());
    out
}

/// Collects the source parts of a list of pieces.
fn collect_sources(pairs: &Vec<CppFragmentPair>) -> (r: Vec<String>)
    ensures
        r.deep_view() == sources_of(pairs.deep_view()),
{
    let mut out: Vec<String> = Vec::new();
    let mut i: usize = 0;
    while i < pairs.len()
        invariant
            i <= pairs.len(),
            out.deep_view() =~= sources_of(pairs.deep_view().take(i as int)),
        decreases pairs.len() - i,
    {
        push_string(&mut out, pair_as_source(&pairs[i]));
        i += 1;
    }
    assert(pairs.deep_view().take(pairs.len() as int) =~= pairs.deep_view());
    out
}

/// Builds the line that opens the namespace.
fn write_namespace_start(namespace: &str) -> (r: String)
    ensures
        r@ == namespace_start(namespace@),
{
    if namespace.is_empty() {
        String::from_str("")
    } else {
        String::from_str("namespace ").concat(namespace).concat(" {")
    }
}

/// Builds the line that closes the namespace.
fn write_namespace_end(namespace: &str) -> (r: String)
    ensures
        r@ == namespace_end(namespace@),
{
    if namespace.is_empty() {
        String::from_str("")
    } else {
        String::from_str("} // namespace ").concat(namespace)
    }
}

/// Writes the C++ source of a class.
pub fn write_cpp_source(generated: &GeneratedCppBlocks) -> (r: String)
    ensures
        r@ == source_text(generated@),
{
    let ident = generated.ident.as_str();
    let rust_ident = generated.rust_ident.as_str();
    let namespace_internals = generated.namespace_internals.as_str();
    let prelude = String::from_str("#include \"cxx-qt-gen/include/").concat(
        generated.cxx_stem.as_str(),
    ).concat(".cxxqt.h\"\n").concat("\n").concat(
        write_namespace_start(generated.namespace.as_str()).as_str(),
    ).concat("\n").concat("\n").concat(ident).concat("::").concat(ident).concat(
        "(QObject* parent)\n",
    ).concat("  : QObject(parent)\n").concat("  , m_rustObj(").concat(
        namespace_internals,
    ).concat("::createRs())\n").concat("{\n").concat("  ").concat(namespace_internals).concat(
        "::initialiseCpp(*this);\n",
    ).concat("  m_initialised = true;\n").concat("}\n").concat("\n").concat(ident).concat(
        "::~",
    ).concat(ident).concat("() = default;\n").concat("\n").concat("const ").concat(
        rust_ident,
    ).concat("&\n").concat(ident).concat("::unsafeRust() const\n").concat("{\n").concat(
        "  return *m_rustObj;\n",
    ).concat("}\n").concat("\n").concat(rust_ident).concat("&\n").concat(ident).concat(
        "::unsafeRustMut()\n",
    ).concat("{\n").concat("  return *m_rustObj;\n").concat("}\n").concat("\n");
    let factory = String::from_str("namespace ").concat(namespace_internals).concat(
        " {\n",
    ).concat("std::unique_ptr<").concat(ident).concat(">\n").concat("newCppObject()\n").concat(
        "{\n",
    ).concat("  return std::make_unique<").concat(ident).concat(">();\n").concat("}\n").concat(
        "} // namespace ",
    ).concat(namespace_internals).concat("\n");
    let methods = join_strings(&collect_sources(&generated.methods), "\n");
    let slots = join_strings(&collect_sources(&generated.slots), "\n");
    prelude.concat(methods.as_str()).concat("\n").concat(slots.as_str()).concat("\n").concat(
        write_namespace_end(generated.namespace.as_str()).as_str(),
    ).concat("\n").concat("\n").concat(factory.as_str())
}

/// Builds one titled section of the class.
fn write_header_section(title: &str, lines: &Vec<String>) -> (r: String)
    ensures
        r@ == header_section(title@, lines.deep_view()),
{
    if lines.len() == 0 {
        String::from_str("")
    } else {
        String::from_str(title).concat("\n").concat("  ").concat(
            join_strings(lines, "\n  ").as_str(),
        ).concat("\n").concat("\n")
    }
}

/// Writes the C++ header of a class.
pub fn write_cpp_header(generated: &GeneratedCppBlocks) -> (r: String)
    ensures
        r@ == header_text(generated@),
{
    let ident = generated.ident.as_str();
    let rust_ident = generated.rust_ident.as_str();
    let namespace_internals = generated.namespace_internals.as_str();
    let prelude = String::from_str("#pragma once\n").concat("\n").concat(
        "#include <memory>\n",
    ).concat("#include <mutex>\n").concat("\n").concat(
        "#include \"cxx-qt-lib/include/convert.h\"\n",
    ).concat("#include \"cxx-qt-lib/include/qt_types.h\"\n").concat("\n").concat(
        write_namespace_start(generated.namespace.as_str()).as_str(),
    ).concat("\n").concat("\n").concat("class ").concat(rust_ident).concat(";\n").concat(
        "\n",
    ).concat("class ").concat(ident).concat(" : public QObject\n").concat("{\n").concat(
        "  Q_OBJECT\n",
    ).concat("  ").concat(join_strings(&generated.metaobjects, "\n  ").as_str()).concat(
        "\n",
    ).concat("\n").concat("public:\n").concat("  explicit ").concat(ident).concat(
        "(QObject* parent = nullptr);\n",
    ).concat("  ~").concat(ident).concat("();\n").concat("  const ").concat(rust_ident).concat(
        "& unsafeRust() const;\n",
    ).concat("  ").concat(rust_ident).concat("& unsafeRustMut();\n").concat("\n");
    let methods = write_header_section("public:", &collect_headers(&generated.methods));
    let slots = write_header_section("public Q_SLOTS:", &collect_headers(&generated.slots));
    let signals = write_header_section("Q_SIGNALS:", &generated.signals);
    let private = String::from_str("private:\n").concat("  rust::Box<").concat(
        rust_ident,
    ).concat("> m_rustObj;\n").concat("  std::mutex m_rustObjMutex;\n").concat(
        "  bool m_initialised = false;\n",
    ).concat("\n").concat("  ").concat(join_strings(&generated.members, "\n  ").as_str()).concat(
        "\n",
    ).concat("};\n").concat("\n");
    let metatype = if generated.namespace.as_str().is_empty() {
        String::from_str(ident)
    } else {
        String::from_str(generated.namespace.as_str()).concat("::").concat(ident)
    };
    let epilogue = String::from_str("typedef ").concat(ident).concat(" CppObj;\n").concat(
        "\n",
    ).concat(write_namespace_end(generated.namespace.as_str()).as_str()).concat("\n").concat(
        "\n",
    ).concat("namespace ").concat(namespace_internals).concat(" {\n").concat(
        "std::unique_ptr<",
    ).concat(ident).concat(">\n").concat("newCppObject();\n").concat(
        "} // namespace ",
    ).concat(namespace_internals).concat("\n").concat("\n").concat(
        "Q_DECLARE_METATYPE(",
    ).concat(metatype.as_str()).concat("*)\n");
    prelude.concat(methods.as_str()).concat(slots.as_str()).concat(signals.as_str()).concat(
        private.as_str(),
    ).concat(epilogue.as_str())
}

/// Writes the header and the source of a class.
pub fn write_cpp(generated: &GeneratedCppBlocks) -> (r: CppFragmentPair)
    ensures
        r.header@ == header_text(generated@),
        r.source@ == source_text(generated@),
{
    CppFragmentPair { header: write_cpp_header(generated), source: write_cpp_source(generated) }
}

} // verus!
