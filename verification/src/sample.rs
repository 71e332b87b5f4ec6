use crate::lifecycle::QObject;
use vstd::prelude::*;

verus! {

/// The Rust state of a sample object that has invokables and nothing else.
#[derive(Debug, Default)]
pub struct MyObject;

/// A colour by its four components, as an invokable hands it to C++.
#[derive(Clone, Copy, Debug, PartialEq, Eq, Structural)]
pub struct Rgba {
    pub red: i32,
    pub green: i32,
    pub blue: i32,
    pub alpha: i32,
}

impl QObject<MyObject> {
    /// An invokable that returns a colour, which C++ receives as an opaque value.
    pub fn invokable_return_opaque(&mut self) -> (r: Rgba)
        ensures
            r == (Rgba { red: 255, green: 0, blue: 0, alpha: 0 }),
            *final(self) == *old(self),
    {
        Rgba { red: 255, green: 0, blue: 0, alpha: 0 }
    }

    /// A method for the C++ side that returns a colour.
    pub fn cpp_context_method_return_opaque(&self) -> (r: Rgba)
        ensures
            r == (Rgba { red: 255, green: 0, blue: 0, alpha: 0 }),
    {
        Rgba { red: 255, green: 0, blue: 0, alpha: 0 }
    }

    /// An invokable that returns a primitive value.
    pub fn invokable_return_primitive(&mut self) -> (r: i32)
        ensures
            r == 2,
            *final(self) == *old(self),
    {
        2
    }

    /// An invokable that returns a fixed string, which C++ receives as an opaque value.
    pub fn invokable_return_static(&mut self) -> (r: String)
        ensures
            r@ == "static"@,
            *final(self) == *old(self),
    {
        String::from_str("static")
    }
}

} // verus!
