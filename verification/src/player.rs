//! The avatar: its state, and the decisions that drive it frame by frame.
pub mod control;
pub mod follow;
pub mod movement_net;
pub mod mover;
pub mod state;
pub mod swim;
pub mod wire_in;
