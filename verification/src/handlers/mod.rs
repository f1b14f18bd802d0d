pub mod config;
pub mod health;
pub mod score;
