//! Treasury governance engine: proposal lifecycle, dynamic approval thresholds,
//! spending and velocity limits, reputation and insurance bookkeeping.

pub mod types;
pub mod threshold;
pub mod insurance;
pub mod reputation;
pub mod storage;
pub mod spending;
pub mod policy;
pub mod vault;
pub mod recurring;
