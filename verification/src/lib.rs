//! A piet 2D rendering backend that draws on an HTML canvas through stdweb.
pub mod bindings;
pub mod canvas;
pub mod css;
pub mod drawing_state;
pub mod font;
pub mod paint_laws;
pub mod render;
pub mod strings;
