//! Toolchain resolution for a JavaScript tool manager: which executable a
//! shim of a given name runs in the current context, and which tools and
//! packages are in effect.

pub mod text;
pub mod version;
pub mod path;
pub mod session;
pub mod shim;
pub mod resolve;
pub mod listing;
pub mod list;
pub mod toolchain;
