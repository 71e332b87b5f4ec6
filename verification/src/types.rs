use crate::text::{join, join_strings};
use vstd::prelude::*;

verus! {

/// The closed set of value types that can cross between the Qt side and the Rust side.
#[derive(Debug)]
pub enum QtTypes {
    Bool,
    F32,
    F64,
    I8,
    I16,
    I32,
    QColor,
    QDate,
    QDateTime,
    QPoint,
    QPointF,
    QRect,
    QRectF,
    QSize,
    QSizeF,
    QString,
    QTime,
    QUrl,
    QVariant,
    U8,
    U16,
    U32,
    /// Another generated object, named by its C++ type and by its Rust path.
    CppObj { cpp_type_idents_string: String, rust_type_idents: Vec<String> },
    /// A handle that owns a heap value of the inner type.
    UniquePtr { inner: Box<QtTypes> },
}

/// The three names and the flags that one value type maps to.
#[derive(Debug)]
pub struct TypeMapping {
    /// The name of the type in C++.
    pub native_name: String,
    /// The name of the type inside the bridge declarations.
    pub boundary_name: String,
    /// The full type in Rust code outside the bridge.
    pub host_name: String,
    pub is_const: bool,
    pub is_reference: bool,
    pub is_pointer: bool,
    pub is_opaque: bool,
    pub is_this: bool,
}

impl QtTypes {
    /// One of the thirteen structured Qt value types.
    pub open spec fn is_structured(&self) -> bool {
        match self {
            QtTypes::QColor
            | QtTypes::QDate
            | QtTypes::QDateTime
            | QtTypes::QPoint
            | QtTypes::QPointF
            | QtTypes::QRect
            | QtTypes::QRectF
            | QtTypes::QSize
            | QtTypes::QSizeF
            | QtTypes::QString
            | QtTypes::QTime
            | QtTypes::QUrl
            | QtTypes::QVariant => true,
            _ => false,
        }
    }

    /// A boolean, an integer or a floating-point number.
    pub open spec fn is_primitive(&self) -> bool {
        !self.is_structured() && !(self is CppObj) && !(self is UniquePtr)
    }

    /// A structured type is opaque; an owning handle is as opaque as what it owns.
    pub open spec fn spec_is_opaque(&self) -> bool
        decreases self,
    {
        match self {
            QtTypes::UniquePtr { inner } => inner.spec_is_opaque(),
            _ => self.is_structured(),
        }
    }

    pub open spec fn spec_is_const(&self) -> bool {
        self.is_structured() || self is UniquePtr
    }

    pub open spec fn spec_is_ref(&self) -> bool {
        self.is_structured() || self is UniquePtr
    }

    pub open spec fn spec_is_ptr(&self) -> bool {
        self is CppObj
    }

    pub open spec fn spec_is_pin(&self) -> bool {
        self is CppObj
    }

    pub open spec fn spec_is_this(&self) -> bool {
        self is CppObj
    }

    /// Whether a value of this type crosses the bridge behind an owning handle.
    #[verifier::when_used_as_spec(spec_is_opaque)]
    pub fn is_opaque(&self) -> (r: bool)
        ensures
            r == self.spec_is_opaque(),
        decreases self,
    {
        match self {
            QtTypes::QColor => true,
            QtTypes::QDate => true,
            QtTypes::QDateTime => true,
            QtTypes::QPoint => true,
            QtTypes::QPointF => true,
            QtTypes::QRect => true,
            QtTypes::QRectF => true,
            QtTypes::QSize => true,
            QtTypes::QSizeF => true,
            QtTypes::QString => true,
            QtTypes::QTime => true,
            QtTypes::QUrl => true,
            QtTypes::QVariant => true,
            QtTypes::UniquePtr { inner } => inner.is_opaque(),
            _ => false,
        }
    }

    /// Whether the type is const in C++ when it is an input to a method.
    #[verifier::when_used_as_spec(spec_is_const)]
    pub fn is_const(&self) -> (r: bool)
        ensures
            r == self.spec_is_const(),
    {
        match self {
            QtTypes::Bool => false,
            QtTypes::CppObj { .. } => false,
            QtTypes::F32 | QtTypes::F64 => false,
            QtTypes::I8 | QtTypes::I16 | QtTypes::I32 => false,
            QtTypes::QColor => true,
            QtTypes::QDate => true,
            QtTypes::QDateTime => true,
            QtTypes::QPoint => true,
            QtTypes::QPointF => true,
            QtTypes::QRect => true,
            QtTypes::QRectF => true,
            QtTypes::QSize => true,
            QtTypes::QSizeF => true,
            QtTypes::QString => true,
            QtTypes::QTime => true,
            QtTypes::QUrl => true,
            QtTypes::QVariant => true,
            QtTypes::U8 | QtTypes::U16 | QtTypes::U32 => false,
            QtTypes::UniquePtr { .. } => true,
        }
    }

    /// Whether the type is a `Pin<T>`, which is passed on as `*name`.
    #[verifier::when_used_as_spec(spec_is_pin)]
    pub fn is_pin(&self) -> (r: bool)
        ensures
            r == self.spec_is_pin(),
    {
        match self {
            QtTypes::CppObj { .. } => true,
            _ => false,
        }
    }

    /// Whether the type is a pointer in C++.
    #[verifier::when_used_as_spec(spec_is_ptr)]
    pub fn is_ptr(&self) -> (r: bool)
        ensures
            r == self.spec_is_ptr(),
    {
        match self {
            QtTypes::CppObj { .. } => true,
            _ => false,
        }
    }

    /// Whether the type is a reference, in C++ and in Rust alike, when it is an input to a
    /// method.
    #[verifier::when_used_as_spec(spec_is_ref)]
    pub fn is_ref(&self) -> (r: bool)
        ensures
            r == self.spec_is_ref(),
    {
        match self {
            QtTypes::Bool => false,
            QtTypes::CppObj { .. } => false,
            QtTypes::F32 | QtTypes::F64 => false,
            QtTypes::I8 | QtTypes::I16 | QtTypes::I32 => false,
            QtTypes::QColor => true,
            QtTypes::QDate => true,
            QtTypes::QDateTime => true,
            QtTypes::QPoint => true,
            QtTypes::QPointF => true,
            QtTypes::QRect => true,
            QtTypes::QRectF => true,
            QtTypes::QSize => true,
            QtTypes::QSizeF => true,
            QtTypes::QString => true,
            QtTypes::QTime => true,
            QtTypes::QUrl => true,
            QtTypes::QVariant => true,
            QtTypes::U8 | QtTypes::U16 | QtTypes::U32 => false,
            QtTypes::UniquePtr { .. } => true,
        }
    }

    /// Whether a parameter of this type stands for the object itself: it is left out of
    /// declarations and named `this` in definitions.
    #[verifier::when_used_as_spec(spec_is_this)]
    pub fn is_this(&self) -> (r: bool)
        ensures
            r == self.spec_is_this(),
    {
        match self {
            QtTypes::CppObj { .. } => true,
            _ => false,
        }
    }

    /// The const part of the type in C++.
    pub open spec fn const_text(&self) -> Seq<char> {
        if self.spec_is_const() {
            "const"@
        } else {
            ""@
        }
    }

    /// The pointer part of the type in C++.
    pub open spec fn ptr_text(&self) -> Seq<char> {
        if self.spec_is_ptr() {
            "*"@
        } else {
            ""@
        }
    }

    /// The reference part of the type in C++.
    pub open spec fn ref_text(&self) -> Seq<char> {
        if self.spec_is_ref() {
            "&"@
        } else {
            ""@
        }
    }

    pub fn as_const_str(&self) -> (r: &'static str)
        ensures
            r@ == self.const_text(),
    {
        if self.is_const() {
            "const"
        } else {
            ""
        }
    }

    pub fn as_ptr_str(&self) -> (r: &'static str)
        ensures
            r@ == self.ptr_text(),
    {
        if self.is_ptr() {
            "*"
        } else {
            ""
        }
    }

    pub fn as_ref_str(&self) -> (r: &'static str)
        ensures
            r@ == self.ref_text(),
    {
        if self.is_ref() {
            "&"
        } else {
            ""
        }
    }

    /// The name of the type in C++. An owning handle is named as what it owns.
    pub open spec fn native_name(&self) -> Seq<char>
        decreases self,
    {
        match self {
            QtTypes::Bool => "bool"@,
            QtTypes::CppObj { cpp_type_idents_string, .. } => cpp_type_idents_string@,
            QtTypes::F32 => "float"@,
            QtTypes::F64 => "double"@,
            QtTypes::I8 => "qint8"@,
            QtTypes::I16 => "qint16"@,
            QtTypes::I32 => "qint32"@,
            QtTypes::QColor => "QColor"@,
            QtTypes::QDate => "QDate"@,
            QtTypes::QDateTime => "QDateTime"@,
            QtTypes::QPoint => "QPoint"@,
            QtTypes::QPointF => "QPointF"@,
            QtTypes::QRect => "QRect"@,
            QtTypes::QRectF => "QRectF"@,
            QtTypes::QSize => "QSize"@,
            QtTypes::QSizeF => "QSizeF"@,
            QtTypes::QString => "QString"@,
            QtTypes::QTime => "QTime"@,
            QtTypes::QUrl => "QUrl"@,
            QtTypes::QVariant => "QVariant"@,
            QtTypes::U8 => "quint8"@,
            QtTypes::U16 => "quint16"@,
            QtTypes::U32 => "quint32"@,
            QtTypes::UniquePtr { inner } => inner.native_name(),
        }
    }

    /// The C++ type name.
    pub fn type_ident(&self) -> (r: &str)
        ensures
            r@ == self.native_name(),
        decreases self,
    {
        match self {
            QtTypes::Bool => "bool",
            QtTypes::CppObj { cpp_type_idents_string, .. } => cpp_type_idents_string.as_str(),
            QtTypes::F32 => "float",
            QtTypes::F64 => "double",
            QtTypes::I8 => "qint8",
            QtTypes::I16 => "qint16",
            QtTypes::I32 => "qint32",
            QtTypes::QColor => "QColor",
            QtTypes::QDate => "QDate",
            QtTypes::QDateTime => "QDateTime",
            QtTypes::QPoint => "QPoint",
            QtTypes::QPointF => "QPointF",
            QtTypes::QRect => "QRect",
            QtTypes::QRectF => "QRectF",
            QtTypes::QSize => "QSize",
            QtTypes::QSizeF => "QSizeF",
            QtTypes::QString => "QString",
            QtTypes::QTime => "QTime",
            QtTypes::QUrl => "QUrl",
            QtTypes::QVariant => "QVariant",
            QtTypes::U8 => "quint8",
            QtTypes::U16 => "quint16",
            QtTypes::U32 => "quint32",
            QtTypes::UniquePtr { inner } => inner.type_ident(),
        }
    }

    /// The name of the type inside the bridge declarations. Another object is named by its
    /// Rust path; an owning handle is named as what it owns.
    pub open spec fn boundary_name(&self) -> Seq<char>
        decreases self,
    {
        match self {
            QtTypes::Bool => "bool"@,
            QtTypes::CppObj { rust_type_idents, .. } => join(rust_type_idents.deep_view(), "::"@),
            QtTypes::F32 => "f32"@,
            QtTypes::F64 => "f64"@,
            QtTypes::I8 => "i8"@,
            QtTypes::I16 => "i16"@,
            QtTypes::I32 => "i32"@,
            QtTypes::QColor => "QColor"@,
            QtTypes::QDate => "QDate"@,
            QtTypes::QDateTime => "QDateTime"@,
            QtTypes::QPoint => "QPoint"@,
            QtTypes::QPointF => "QPointF"@,
            QtTypes::QRect => "QRect"@,
            QtTypes::QRectF => "QRectF"@,
            QtTypes::QSize => "QSize"@,
            QtTypes::QSizeF => "QSizeF"@,
            QtTypes::QString => "QString"@,
            QtTypes::QTime => "QTime"@,
            QtTypes::QUrl => "QUrl"@,
            QtTypes::QVariant => "QVariant"@,
            QtTypes::U8 => "u8"@,
            QtTypes::U16 => "u16"@,
            QtTypes::U32 => "u32"@,
            QtTypes::UniquePtr { inner } => inner.boundary_name(),
        }
    }

    /// The name of the type when it is declared or used inside the bridge.
    pub fn cxx_bridge_type_ident(&self) -> (r: String)
        ensures
            r@ == self.boundary_name(),
        decreases self,
    {
        match self {
            QtTypes::Bool => String::from_str("bool"),
            QtTypes::CppObj { rust_type_idents, .. } => join_strings(rust_type_idents, "::"),
            QtTypes::F32 => String::from_str("f32"),
            QtTypes::F64 => String::from_str("f64"),
            QtTypes::I8 => String::from_str("i8"),
            QtTypes::I16 => String::from_str("i16"),
            QtTypes::I32 => String::from_str("i32"),
            QtTypes::QColor => String::from_str("QColor"),
            QtTypes::QDate => String::from_str("QDate"),
            QtTypes::QDateTime => String::from_str("QDateTime"),
            QtTypes::QPoint => String::from_str("QPoint"),
            QtTypes::QPointF => String::from_str("QPointF"),
            QtTypes::QRect => String::from_str("QRect"),
            QtTypes::QRectF => String::from_str("QRectF"),
            QtTypes::QSize => String::from_str("QSize"),
            QtTypes::QSizeF => String::from_str("QSizeF"),
            QtTypes::QString => String::from_str("QString"),
            QtTypes::QTime => String::from_str("QTime"),
            QtTypes::QUrl => String::from_str("QUrl"),
            QtTypes::QVariant => String::from_str("QVariant"),
            QtTypes::U8 => String::from_str("u8"),
            QtTypes::U16 => String::from_str("u16"),
            QtTypes::U32 => String::from_str("u32"),
            QtTypes::UniquePtr { inner } => inner.cxx_bridge_type_ident(),
        }
    }

    /// The full type in Rust code outside the bridge. Another object is named by its Rust
    /// path; an owning handle wraps the full type of what it owns.
    pub open spec fn host_name(&self) -> Seq<char>
        decreases self,
    {
        match self {
            QtTypes::Bool => "bool"@,
            QtTypes::CppObj { rust_type_idents, .. } => join(rust_type_idents.deep_view(), "::"@),
            QtTypes::F32 => "f32"@,
            QtTypes::F64 => "f64"@,
            QtTypes::I8 => "i8"@,
            QtTypes::I16 => "i16"@,
            QtTypes::I32 => "i32"@,
            QtTypes::QColor => "cxx_qt_lib::QColor"@,
            QtTypes::QDate => "cxx_qt_lib::QDate"@,
            QtTypes::QDateTime => "cxx_qt_lib::QDateTime"@,
            QtTypes::QPoint => "cxx_qt_lib::QPoint"@,
            QtTypes::QPointF => "cxx_qt_lib::QPointF"@,
            QtTypes::QRect => "cxx_qt_lib::QRect"@,
            QtTypes::QRectF => "cxx_qt_lib::QRectF"@,
            QtTypes::QSize => "cxx_qt_lib::QSize"@,
            QtTypes::QSizeF => "cxx_qt_lib::QSizeF"@,
            QtTypes::QString => "cxx_qt_lib::QString"@,
            QtTypes::QTime => "cxx_qt_lib::QTime"@,
            QtTypes::QUrl => "cxx_qt_lib::QUrl"@,
            QtTypes::QVariant => "cxx_qt_lib::QVariant"@,
            QtTypes::U8 => "u8"@,
            QtTypes::U16 => "u16"@,
            QtTypes::U32 => "u32"@,
            QtTypes::UniquePtr { inner } => "UniquePtr<"@ + inner.host_name() + ">"@,
        }
    }

    /// The full type for a parameter in Rust code outside the bridge.
    pub fn cxx_qt_lib_type(&self) -> (r: String)
        ensures
            r@ == self.host_name(),
        decreases self,
    {
        match self {
            QtTypes::Bool => String::from_str("bool"),
            QtTypes::CppObj { rust_type_idents, .. } => join_strings(rust_type_idents, "::"),
            QtTypes::F32 => String::from_str("f32"),
            QtTypes::F64 => String::from_str("f64"),
            QtTypes::I8 => String::from_str("i8"),
            QtTypes::I16 => String::from_str("i16"),
            QtTypes::I32 => String::from_str("i32"),
            QtTypes::QColor => String::from_str("cxx_qt_lib::QColor"),
            QtTypes::QDate => String::from_str("cxx_qt_lib::QDate"),
            QtTypes::QDateTime => String::from_str("cxx_qt_lib::QDateTime"),
            QtTypes::QPoint => String::from_str("cxx_qt_lib::QPoint"),
            QtTypes::QPointF => String::from_str("cxx_qt_lib::QPointF"),
            QtTypes::QRect => String::from_str("cxx_qt_lib::QRect"),
            QtTypes::QRectF => String::from_str("cxx_qt_lib::QRectF"),
            QtTypes::QSize => String::from_str("cxx_qt_lib::QSize"),
            QtTypes::QSizeF => String::from_str("cxx_qt_lib::QSizeF"),
            QtTypes::QString => String::from_str("cxx_qt_lib::QString"),
            QtTypes::QTime => String::from_str("cxx_qt_lib::QTime"),
            QtTypes::QUrl => String::from_str("cxx_qt_lib::QUrl"),
            QtTypes::QVariant => String::from_str("cxx_qt_lib::QVariant"),
            QtTypes::U8 => String::from_str("u8"),
            QtTypes::U16 => String::from_str("u16"),
            QtTypes::U32 => String::from_str("u32"),
            QtTypes::UniquePtr { inner } => {
                let mut out = String::from_str("UniquePtr<");
                out.append(inner.cxx_qt_lib_type().as_str());
                out.append(">");
                out
            },
        }
    }

    /// All three names and all flags of the type at once.
    pub fn map(&self) -> (r: TypeMapping)
        ensures
            r.native_name@ == self.native_name(),
            r.boundary_name@ == self.boundary_name(),
            r.host_name@ == self.host_name(),
            r.is_const == self.spec_is_const(),
            r.is_reference == self.spec_is_ref(),
            r.is_pointer == self.spec_is_ptr(),
            r.is_opaque == self.spec_is_opaque(),
            r.is_this == self.spec_is_this(),
    {
        TypeMapping {
            native_name: String::from_str(self.type_ident()),
            boundary_name: self.cxx_bridge_type_ident(),
            host_name: self.cxx_qt_lib_type(),
            is_const: self.is_const(),
            is_reference: self.is_ref(),
            is_pointer: self.is_ptr(),
            is_opaque: self.is_opaque(),
            is_this: self.is_this(),
        }
    }
}

/// The flags follow the kind of the type: a primitive type is passed as it is; a structured
/// type is a const reference in C++ and opaque; another object is a pointer that stands for
/// `this`; an owning handle is a const reference in C++ and as opaque as what it owns. No
/// type is both a reference and a pointer.
pub proof fn lemma_mapping_rules(t: QtTypes)
    ensures
        t.is_primitive() ==> !t.spec_is_const() && !t.spec_is_ref() && !t.spec_is_ptr()
            && !t.spec_is_opaque() && !t.spec_is_this(),
        t.is_structured() ==> t.spec_is_const() && t.spec_is_ref() && !t.spec_is_ptr()
            && t.spec_is_opaque() && !t.spec_is_this(),
        t is CppObj ==> !t.spec_is_const() && !t.spec_is_ref() && t.spec_is_ptr()
            && !t.spec_is_opaque() && t.spec_is_this() && t.spec_is_pin(),
        t matches QtTypes::UniquePtr { inner } ==> t.spec_is_const() && t.spec_is_ref()
            && !t.spec_is_ptr() && !t.spec_is_this() && t.spec_is_opaque()
            == inner.spec_is_opaque() && t.native_name() == inner.native_name()
            && t.boundary_name() == inner.boundary_name(),
        !(t.spec_is_ref() && t.spec_is_ptr()),
        t.spec_is_opaque() ==> t.spec_is_const() && t.spec_is_ref(),
{
    lemma_opaque_is_const_ref(t);
}

/// An opaque type is a const reference in C++.
pub proof fn lemma_opaque_is_const_ref(t: QtTypes)
    ensures
        t.spec_is_opaque() ==> t.spec_is_const() && t.spec_is_ref() && !t.spec_is_ptr(),
    decreases t,
{
}

} // verus!
