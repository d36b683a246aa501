//! Text to QR symbol: capacity-driven version selection, alphanumeric bit
//! streams, and rendering to SVG or raster images.
pub mod api;
pub mod capacity;
pub mod encode;
pub mod options;
pub mod qr;
pub mod render;
pub mod version;
