//! Headless interactive widgets: button, checkbox and modal barrier.
//!
//! The crate reconciles raw input events (keyboard key transitions, pointer
//! press / release / click / drag-end / cancel) into semantic widget-state
//! transitions and outcomes (clicks, value changes, close requests). It owns
//! the interaction semantics — pressed and checked state, focus acquisition,
//! disabled gating, propagation halting, and the callback-or-broadcast
//! notification contract — while rendering, hit-testing, storage and the
//! callback runtime stay with the surrounding application.

pub mod barrier;
pub mod button;
pub mod checkbox;
pub mod events;
pub mod focus;
