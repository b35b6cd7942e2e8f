pub mod ascii_animation;
pub mod bullet;
pub mod combat;
pub mod editor;
pub mod hud;
pub mod label;
pub mod rolls;
pub mod state;
pub mod text;
pub mod timer;
pub mod ui;
