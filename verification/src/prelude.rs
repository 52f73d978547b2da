//! Everything needed to use the two capabilities.

pub use crate::default::IsDefault;
pub use crate::empty::IsEmpty;
