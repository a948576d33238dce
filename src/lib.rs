//! Production-line bookkeeping: the volume a line produced on a day, from
//! its flow-rate readings, and the lazy, get-or-create daily production
//! record that ties the day's sales plan, production plan and final line
//! together.

pub mod catalog;
pub mod datetime;
pub mod decimal;
pub mod error;
pub mod flow;
pub mod pipe_stats;
pub mod plans;
pub mod production_info;
pub mod repository;
pub mod role;
pub mod thing;
