pub mod alert;
pub mod blocking_queue;
pub mod coffee_machine;
pub mod constants;
pub mod container;
pub mod containers;
pub mod order;
pub mod order_reader;
pub mod utils;
