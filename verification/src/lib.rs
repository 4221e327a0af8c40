//! A relay from a chat platform to a push-notification service.
//!
//! For each message that qualifies, the relay posts a short summary
//! (channel, author, text, link) to the notification service, at most once
//! per channel within a cooldown interval. The link is shortened first
//! where the shortener cooperates.
//!
//! This library holds every decision of the relay and none of its I/O. A
//! caller feeds it plain values (the message event, clock readings, what the
//! lookups and the HTTP calls returned) and carries out what it returns:
//!
//! 1. [`handler::Handler::receive`] filters the message and consults the
//!    rate gate;
//! 2. [`handler::Handler::compose`] turns the replies of the channel lookup,
//!    the member lookup and the shortener into the notification and the
//!    request that delivers it;
//! 3. [`handler::Handler::complete`] records the time and reports how the
//!    dispatch went.

pub mod config;
pub mod enrich;
pub mod event;
pub mod gate;
pub mod handler;
pub mod notifier;
pub mod shortener;
pub mod text;
