//! Input bookkeeping for an immediate-mode UI embedded in a game loop: the
//! mouse-state cache handed to the UI once per frame, the choice of shader
//! dialect for the UI renderer, and the demo window's popup state.
pub mod demo;
pub mod mouse;
pub mod shaders;
