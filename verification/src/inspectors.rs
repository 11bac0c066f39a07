//! Record inspectors: one module per built-in component record type, each
//! with the record's plain-value model, one frame's widget interaction, the
//! stepping rule relating them, and the commit pass that queues a
//! whole-record replacement exactly when a widget reported a change.

pub mod anchors;
pub mod blink;
pub mod markers;
pub mod named;
pub mod rgba;
pub mod sprite_render;
pub mod texture;
pub mod tint;
pub mod transform;
pub mod ui_text;
pub mod ui_transform;
pub mod ui_transform_debug;
