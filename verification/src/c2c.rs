//! Chain of custody: events, file versions and their order.

pub mod event;
pub mod filetrail;
pub mod order;
pub mod record;
pub mod store;
pub mod types;
pub mod verify;
