//! What the HTTP service decides: which submissions it accepts, and how it
//! reports what became of them.

pub mod execute;
pub mod judge;
pub mod jwt;
pub mod payload;
pub mod site;
pub mod version;
