//! Game logic of a terminal "data breach" puzzle fed by live network bytes,
//! together with the small decisions of its packet tools.

pub mod behaviour_laws;
pub mod game_interface;
pub mod matrix_backend;
pub mod matrix_laws;
pub mod matrix_mode;
pub mod packet_reciever;
mod random;
pub mod sending;
