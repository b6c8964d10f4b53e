pub mod action;
pub mod catalog;
pub mod credentials;
pub mod error;
pub mod planner;
pub mod resolve;
pub mod text;
