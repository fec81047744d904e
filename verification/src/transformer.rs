//! The passes that refine the intermediate representation once every
//! segment exists.

pub mod borrow;
pub mod flatten_type;
pub mod internal_tag;
pub mod rename_all;
pub mod retype;

pub use borrow::adapt_borrow;
pub use flatten_type::flatten_type;
pub use internal_tag::adapt_internal_tag;
pub use rename_all::adapt_rename_all;
pub use retype::retype;
