//! The front end: from declarations to segments of the intermediate
//! representation.

pub mod context;
pub mod convert;
pub mod declarations;
pub mod laws;
pub mod merge_union_type_lits;
pub mod model;
pub mod name_types;
pub mod state;
pub mod syntax;

pub use context::TypeConvertContext;
pub use convert::{ts_index_signature, ts_prop_signature, ts_type_to_rs, type_literal};
pub use declarations::{convert_module, interface2struct, tunion2enum};
pub use state::{FrontendError, FrontendState};
pub use crate::docs::strip_docs;
