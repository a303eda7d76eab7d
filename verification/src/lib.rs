//! Notification-construction core of a group-coordination chat bot.
//!
//! Given partially specified event details, the library resolves the optional
//! fields to display values, assembles one of three message payloads, computes
//! the rolling week that an availability poll shows, and plans the reactions
//! that are attached to the message once it is sent. The transport that sends
//! the message is driven from outside through the `dispatch` state machine.

pub mod command;
pub mod dispatch;
pub mod fields;
pub mod payload;
pub mod reaction;
pub mod text;
pub mod weekday;
