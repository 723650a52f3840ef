pub mod helpers;
pub mod initializer;
pub mod loan;
pub mod repay;
