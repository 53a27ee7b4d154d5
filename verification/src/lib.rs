//! The canonical-ABI engine behind the interface bindings: layout of every
//! interface type, flattening of values onto the wasm call boundary, the
//! instruction protocol that marshals a call, and the handle tables that the
//! marshalled code uses at run time. On top of the engine stands a renderer
//! of host bindings for Wasmer, which turns the protocols of an interface
//! into a module of Rust source.

pub mod abi;
pub mod call;
pub mod compile;
pub mod dependencies;
pub mod docs;
pub mod encoding;
pub mod generator;
pub mod imports;
pub mod instruction;
pub mod layout;
pub mod memory;
pub mod module;
pub mod names;
pub mod options;
pub mod printer;
pub mod protocol;
pub mod render;
pub mod requirements;
pub mod rt;
pub mod simple_lists;
pub mod slab;
pub mod templates;
pub mod source;
pub mod text;
pub mod types;
pub mod wasmer;
