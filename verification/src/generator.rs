use vstd::prelude::*;

verus! {

/// A piece of C++ with its part for the header and its part for the source.
#[derive(Debug)]
pub struct CppFragmentPair {
    pub header: String,
    pub source: String,
}

/// The text of a `CppFragmentPair`.
pub struct FragmentText {
    pub header: Seq<char>,
    pub source: Seq<char>,
}

impl View for CppFragmentPair {
    type V = FragmentText;

    open spec fn view(&self) -> FragmentText {
        FragmentText { header: self.header@, source: self.source@ }
    }
}

impl DeepView for CppFragmentPair {
    type V = FragmentText;

    open spec fn deep_view(&self) -> FragmentText {
        self.view()
    }
}

/// All that is written into the header and the source of one C++ class.
#[derive(Debug)]
pub struct GeneratedCppBlocks {
    /// The stem of the file names.
    pub cxx_stem: String,
    /// The name of the class.
    pub ident: String,
    /// The name of the Rust struct behind the class.
    pub rust_ident: String,
    /// The namespace of the class; empty for none.
    pub namespace: String,
    /// The namespace of the internal functions.
    pub namespace_internals: String,
    pub metaobjects: Vec<String>,
    pub methods: Vec<CppFragmentPair>,
    pub slots: Vec<CppFragmentPair>,
    pub signals: Vec<String>,
    pub members: Vec<String>,
}

/// The text of a `GeneratedCppBlocks`.
pub struct CppBlocksText {
    pub cxx_stem: Seq<char>,
    pub ident: Seq<char>,
    pub rust_ident: Seq<char>,
    pub namespace: Seq<char>,
    pub namespace_internals: Seq<char>,
    pub metaobjects: Seq<Seq<char>>,
    pub methods: Seq<FragmentText>,
    pub slots: Seq<FragmentText>,
    pub signals: Seq<Seq<char>>,
    pub members: Seq<Seq<char>>,
}

impl View for GeneratedCppBlocks {
    type V = CppBlocksText;

    open spec fn view(&self) -> CppBlocksText {
        CppBlocksText {
            cxx_stem: self.cxx_stem@,
            ident: self.ident@,
            rust_ident: self.rust_ident@,
            namespace: self.namespace@,
            namespace_internals: self.namespace_internals@,
            metaobjects: self.metaobjects.deep_view(),
            methods: self.methods.deep_view(),
            slots: self.slots.deep_view(),
            signals: self.signals.deep_view(),
            members: self.members.deep_view(),
        }
    }
}

/// All that is written into the generated Rust module of one object.
#[derive(Debug)]
pub struct GeneratedRustBlocks {
    /// The module that holds the bridge.
    pub cxx_mod: String,
    /// The name of that module.
    pub cxx_mod_ident: String,
    /// The items of the module that holds the Rust side of the object.
    pub cxx_qt_mod_contents: String,
    /// The name of the C++ class inside the bridge.
    pub cpp_struct_ident: String,
    /// The namespace of the bridge.
    pub namespace: String,
    /// The name of the Rust struct behind the object.
    pub rust_struct_ident: String,
}

/// The text of a `GeneratedRustBlocks`.
pub struct RustBlocksText {
    pub cxx_mod: Seq<char>,
    pub cxx_mod_ident: Seq<char>,
    pub cxx_qt_mod_contents: Seq<char>,
    pub cpp_struct_ident: Seq<char>,
    pub namespace: Seq<char>,
    pub rust_struct_ident: Seq<char>,
}

impl View for GeneratedRustBlocks {
    type V = RustBlocksText;

    open spec fn view(&self) -> RustBlocksText {
        RustBlocksText {
            cxx_mod: self.cxx_mod@,
            cxx_mod_ident: self.cxx_mod_ident@,
            cxx_qt_mod_contents: self.cxx_qt_mod_contents@,
            cpp_struct_ident: self.cpp_struct_ident@,
            namespace: self.namespace@,
            rust_struct_ident: self.rust_struct_ident@,
        }
    }
}

/// Pieces that hold the given headers and no source.
pub open spec fn header_pairs(headers: Seq<Seq<char>>) -> Seq<FragmentText> {
    Seq::new(headers.len(), |i: int| FragmentText { header: headers[i], source: ""@ })
}

/// Pieces that hold the given sources and no header.
pub open spec fn source_pairs(sources: Seq<Seq<char>>) -> Seq<FragmentText> {
    Seq::new(sources.len(), |i: int| FragmentText { header: ""@, source: sources[i] })
}

/// Puts one piece at the end of `list`.
pub fn push_pair(list: &mut Vec<CppFragmentPair>, header: String, source: String)
    ensures
        final(list).deep_view() == old(list).deep_view().push(
            FragmentText { header: header@, source: source@ },
        ),
{
    let ghost before = list.deep_view();
    let ghost text = FragmentText { header: header@, source: source@ };
    list.push(CppFragmentPair { header, source });
    assert(list.deep_view() =~= before.push(text));
}

/// Puts a copy of each string at the end of `list`.
pub fn append_strings(list: &mut Vec<String>, more: &Vec<String>)
    ensures
        final(list).deep_view() == old(list).deep_view() + more.deep_view(),
{
    let ghost before = list.deep_view();
    let mut i: usize = 0;
    while i < more.len()
        invariant
            i <= more.len(),
            list.deep_view() =~= before + more.deep_view().take(i as int),
        decreases more.len() - i,
    {
        let ghost so_far = list.deep_view();
        let copy = more[i].clone();
        list.push(copy);
        assert(list.deep_view() =~= so_far.push(more[i as int]@));
        i += 1;
    }
    assert(more.deep_view().take(more.len() as int) =~= more.deep_view());
}

/// Puts a piece with no source at the end of `list` for each header.
pub fn append_header_pairs(list: &mut Vec<CppFragmentPair>, headers: &Vec<String>)
    ensures
        final(list).deep_view() == old(list).deep_view() + header_pairs(headers.deep_view()),
{
    let ghost before = list.deep_view();
    let mut i: usize = 0;
    while i < headers.len()
        invariant
            i <= headers.len(),
            list.deep_view() =~= before + header_pairs(headers.deep_view().take(i as int)),
        decreases headers.len() - i,
    {
        push_pair(list, headers[i].clone(), String::from_str(""));
        i += 1;
    }
    assert(headers.deep_view().take(headers.len() as int) =~= headers.deep_view());
}

/// Puts a piece with no header at the end of `list` for each source.
pub fn append_source_pairs(list: &mut Vec<CppFragmentPair>, sources: &Vec<String>)
    ensures
        final(list).deep_view() == old(list).deep_view() + source_pairs(sources.deep_view()),
{
    let ghost before = list.deep_view();
    let mut i: usize = 0;
    while i < sources.len()
        invariant
            i <= sources.len(),
            list.deep_view() =~= before + source_pairs(sources.deep_view().take(i as int)),
        decreases sources.len() - i,
    {
        push_pair(list, String::from_str(""), sources[i].clone());
        i += 1;
    }
    assert(sources.deep_view().take(sources.len() as int) =~= sources.deep_view());
}

} // verus!
