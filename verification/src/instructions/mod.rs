pub mod helpers;
pub mod make;
pub mod take;
pub mod refund;
pub mod lifecycle;
pub mod laws;
