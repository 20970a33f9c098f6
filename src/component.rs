pub mod component;
pub mod description;
pub mod entity_assoc;
pub mod entity_type;
pub mod name;
pub mod turn_count;
pub mod turn_order;
pub mod turn_state;
