//! Capture-to-composite pipeline for mirroring the content of other
//! applications' windows.
//!
//! The library covers the decision and data core of one render tick:
//! locating a target window by a title marker, sizing pixel buffers for a
//! captured client area, rejecting poisoned captures under a bounded retry
//! budget, promoting accepted frames to textures, and compositing the
//! frames into a shared back buffer as a vertical stack with live resize
//! handling.  The operating-system work around it (window enumeration,
//! device contexts, the swap chain, the message pump) stays outside and
//! feeds this library plain values.

pub mod context;
pub mod layout;
pub mod locate;
pub mod pixel;
pub mod surface;
pub mod tick;
pub mod validate;
