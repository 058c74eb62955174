//! Client-side synchronization layer for a robot controller that exposes its
//! state through cursor-based long-poll getters.
//!
//! The verified core holds the long-poll cursor discipline, the indexed
//! snapshot collections and the resolver cache that mirrors the controller's
//! locations and shelves.

pub mod api_impl;
pub mod conversion;
pub mod error_codes;
pub mod layout_collection;
pub mod long_poll;
pub mod options;
pub mod shelf_location_resolver;
pub mod types;

pub use layout_collection::LayoutCollection;
pub use long_poll::LongPollChannel;
pub use options::{LockOnEnd, StartCommandOptions};
pub use shelf_location_resolver::ShelfLocationResolver;
pub use types::{
    CommandResult, CommandState, CommandStateKind, KachakaApiError, KachakaError, PixelFormat,
    PowerSupplyStatus, RawPixels, RosImage, RosImageError, RpcResult,
};
