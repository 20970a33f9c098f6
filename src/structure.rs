pub mod association;
pub mod hierarchy;
