//! Routing, provenance and action rules for relaying templated chat messages
//! through per-channel webhooks.
//!
//! The library decides and computes; it performs no I/O. What needs the
//! platform, the cache or storage is asked of the caller as a command, and
//! the answer comes back as an event:
//!
//! * [`send`] takes a send request to the webhook that carries it and to the
//!   provenance record of the message; [`routing`] holds its rules.
//! * [`integrity`] gives each payload its digest, and [`provenance`] the
//!   record that binds a message to its digest and its author.
//! * [`component`] handles the use of an interactive component: it checks
//!   the integrity of the message, derives the authority of its author
//!   ([`interaction`], [`permissions`]) and lets [`engine`] run the
//!   [`actions`] of the component's token.
//! * [`template`] expands placeholders, [`attachments`] decodes what a
//!   request attaches, and [`help`] defines the `help` command.

pub mod actions;
pub mod attachments;
pub mod component;
pub mod engine;
pub mod help;
pub mod integrity;
pub mod interaction;
pub mod payload;
pub mod permissions;
pub mod provenance;
pub mod routing;
pub mod send;
pub mod template;
pub mod text;
