//! A bridge from a host-owned native window to a retained widget tree and a
//! GPU renderer: exact input translation, surface configuration, and the
//! two-phase window lifecycle.
//!
//! - `geometry`: scale factors and coordinates as exact fractions.
//! - `input`: the translator from host input to the widget tree's events.
//! - `surface`: the presentable surface's configuration and render errors.
//! - `window`: the per-window session that sequences GPU and widget-tree
//!   start-up, frames and input dispatch.

pub mod geometry;
pub mod input;
pub mod surface;
pub mod window;
