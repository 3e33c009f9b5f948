//! Shared value types of the interface: menu navigation, connector handles,
//! the help sheet, and notifications.

pub mod connector;
pub mod info;
pub mod nav;
pub mod notification;
