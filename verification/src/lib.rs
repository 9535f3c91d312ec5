//! Core logic of a desktop assistant's host shell: validating a
//! user-chosen workspace directory before it is registered with the
//! host's filesystem-permission registry, and resolving an installed
//! application's icon to an embeddable PNG data URL.
//!
//! All decisions are made here over plain values; the surrounding
//! process performs the filesystem probes and subprocess calls and
//! feeds their outcomes in.

pub mod encode;
pub mod grant;
pub mod icon;
pub mod text;
