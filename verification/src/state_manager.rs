//! The state of a resource and its two readers, under their short names.

pub use crate::base::{Cache, CacheView, ResourceProps, ResourceState, ResourceView};
pub use crate::local::DefaultLocalResourceReader as Local;
pub use crate::remote::DefaultRemoteResourceReader as Remote;
