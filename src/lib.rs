//! An optional type whose `None` and `Some` states are encoded in a niche of the wrapped type,
//! chosen by the type itself through the `Niche` trait.

pub mod derive;
pub mod niche;
pub mod nonzero;
pub mod option;
pub mod record;
pub mod reference;

pub use niche::Niche;
pub use option::ControlledOption;
pub use record::{fill_struct_field_with_none, struct_field_is_none, RecordStorage};
