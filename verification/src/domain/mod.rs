pub mod account;
pub mod cart;
pub mod catalog;
pub mod order;
