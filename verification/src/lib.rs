//! Remote-control relay for a two-motor robot: the command table, the actuator
//! that turns commands into line writes, the command envelope, and the state
//! machine of one client session.

pub mod command;
pub mod envelope;
pub mod motor;
pub mod session;
pub mod signal;
pub mod text;
