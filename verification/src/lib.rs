//! Generates, for one described object, the C++ class that Qt's meta-object system sees and
//! the Rust module that stands behind it, so that both sides agree on every name and on
//! how every value is passed.
//!
//! `types` maps each value type to its names and flags on both sides. `descriptor` holds
//! the description of an object and the rules that it has to keep. `gen_cpp` generates the
//! C++ class, `gen_rs` the bridge and the Rust side; `writer_cpp` and `writer_rs` put the
//! generated parts into whole files. `lifecycle` states how a generated object behaves
//! while it lives: when its setters notify and how ownership of a pointer moves.

pub mod descriptor;
pub mod gen_cpp;
pub mod gen_rs;
pub mod generator;
pub mod lifecycle;
pub mod naming;
pub mod sample;
pub mod syntax;
pub mod text;
pub mod types;
pub mod writer_cpp;
pub mod writer_rs;
