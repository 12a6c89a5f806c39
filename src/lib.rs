//! Middle-click autoscroll: the toggle gesture, the scroll state, the
//! distance-to-speed mapping, the worker's decisions, the indicator and the
//! settings they are read from.
pub mod scroll;
pub mod state;
pub mod trigger;
pub mod worker;
pub mod overlay;
pub mod pixels;
pub mod text;
pub mod settings;
