//! Core of a chat bot that relays `.attheme` theme files between a chat
//! platform and a remote theme editor: it classifies incoming events,
//! drives the upload and download flows, models the periodic "typing"
//! indicator, and composes every user-facing reply.
pub mod download;
pub mod event;
pub mod liveness;
pub mod localization;
pub mod reply;
pub mod theme_codec;
pub mod upload;
