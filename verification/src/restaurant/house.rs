//! The house: who seats, who serves, who cooks.

pub mod back_of_house;
pub mod hosting;
mod serving;
