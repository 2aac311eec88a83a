//! Verified core of the ntfy server plugin: lifecycle planning for the
//! self-hosted server, and the routing of the notification-backend surface.

pub mod clock;
pub mod endpoints;
pub mod lifecycle;
pub mod routing;
pub mod text;
