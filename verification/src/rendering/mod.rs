pub mod directwrite;
pub mod lcd_renderer;
