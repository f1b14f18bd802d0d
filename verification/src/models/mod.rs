pub mod double;
pub mod features;
pub mod payload;
pub mod response;
