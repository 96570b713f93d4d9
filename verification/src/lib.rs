//! A single-screen game main menu: a declarative layout tree with one
//! "Start Game" button, and an edge-triggered dispatcher that maps pointer
//! interaction onto button colors and click-handler invocations.
//!
//! The host UI runtime supplies the frame loop, pointer classification and
//! rendering; this crate holds the decisions the menu makes each frame.

pub mod dispatch;
pub mod menu;
