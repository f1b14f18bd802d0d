pub mod hmac;
pub mod rate_limit;
