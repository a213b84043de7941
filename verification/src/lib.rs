pub mod app;
pub mod config;
pub mod decimal;
pub mod hardware;
pub mod monitoring;
pub mod nzxt;
pub mod rendering;
pub mod text;
pub mod windows;
