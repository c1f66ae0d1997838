pub mod canvas;
pub mod codec;
pub mod font;
pub mod layout;
pub mod pixel;
pub mod render;
