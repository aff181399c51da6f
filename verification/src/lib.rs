//! Authentication and event mapping for LaunchDarkly change webhooks that are
//! recorded as Datadog events.

pub mod event;
pub mod handler;
pub mod hexadecimal;
pub mod payload;
pub mod record;
pub mod signature;
