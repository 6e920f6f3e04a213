//! The actions: one-shot operators on a market and a position.

pub mod decrease_position;
pub mod deposit;
pub mod increase_position;
pub mod position_cut;
pub mod update_borrowing_state;
pub mod update_funding_state;
