//! A compile-time derivation engine for zero-initializability.
//!
//! Given the shape of a type declaration (a record, a tagged union, or an
//! untagged union), an annotation mini-language, and a layout representation,
//! the engine decides which field types must be proven zero-initializable,
//! and produces either the plan for the generated capability grant or a
//! diagnostic tied to the offending token.

pub mod assert_zeroable;
pub mod attribute_parsing;
pub mod datastructure;
pub mod diagnostic;
pub mod laws;
pub mod repr_attr;
pub mod strutil;
pub mod zeroable_macro;

pub use crate::assert_zeroable::AssertZeroable;
pub use crate::assert_zeroable::GetAssertZeroable;
pub use crate::datastructure::DataStructure;
pub use crate::datastructure::DataVariant;
pub use crate::datastructure::FieldIndex;
pub use crate::diagnostic::Diagnostic;
pub use crate::zeroable_macro::Derived;
