//! Schema-driven generator for a UI-toolkit table/tree adapter and the
//! matching foreign-function surface.
//!
//! The input is an immutable schema of objects and their typed item
//! properties. From it two synchronized source artifacts are produced: a
//! native adapter implementing the toolkit's data-access contract, and one
//! function-surface unit per object that the implementation language fills
//! in. The mapping algorithm that keeps the two consistent (role and column
//! assignment, row/parent/index translation, transfer of optional and
//! variable-length values) is what this crate states and proves.

use vstd::prelude::*;

pub mod cpp;
pub mod ffi;
pub mod resolver;
pub mod schema;
pub mod surface;
pub mod text;
pub mod translator;

pub use cpp::{write_cpp, write_cpp_model};

verus! {

/// Numeric base for per-property default roles: the first role value the
/// UI toolkit reserves for application data.
pub const USER_ROLE_BASE: u32 = 256;

/// The default role of the property at 0-based position `i` in its object's
/// property sequence. The numbering is fixed at schema-build time and never
/// shifts.
pub open spec fn spec_default_role(i: int) -> int {
    USER_ROLE_BASE as int + i
}

/// Default role for property position `i`.
pub fn default_role(i: u32) -> (r: u32)
    requires
        i < 0x1000_0000,
    ensures
        r == spec_default_role(i as int),
{
    USER_ROLE_BASE + i
}

} // verus!
