//! The four instructions of the fee router.
pub mod claim_fee;
pub mod close_position;
pub mod initialize_honorary_position;
pub mod route_fees;
