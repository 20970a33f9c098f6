pub mod character;
pub mod entity;
pub mod player;
pub mod scenario;
pub mod seq_play;
