pub mod effect;
pub mod round;
