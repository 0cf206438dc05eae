//! Game logic of the mon maker program: statistics of in-game characters,
//! the token amounts that each instruction mints or burns, and the seeds of
//! the program-derived accounts.

pub mod stats;
pub mod state;
pub mod error;
pub mod token_calc;
pub mod instructions;
pub mod seeds;
