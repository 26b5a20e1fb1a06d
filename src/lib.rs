//! An interactive polygon scene: a control panel that edits a small scene
//! state, and a renderer that turns that state into draw commands.
//!
//! All quantities are integers. Lengths are in milli-points (a thousandth of
//! a window coordinate unit); angles are in turn units, of which a full turn
//! holds `TURN`; a color channel is a byte, where 255 stands for full
//! intensity.
pub mod controls;
pub mod grid;
pub mod render;
pub mod scene;
