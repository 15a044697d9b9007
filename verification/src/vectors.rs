//! Distance measures between vectors.

pub mod statistics;

pub use statistics::covariance;
pub use statistics::mean;
pub use statistics::pearson;
pub use statistics::std_dev;
