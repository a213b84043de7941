pub mod dpi;
pub mod tray;
pub mod window;
