mod clock;
pub mod game;
pub mod jwt;
pub mod memory_users;
pub mod models;
pub mod notifier;
pub mod ports;
pub mod redis_store;
pub mod request;
pub mod round;
pub mod schedule;
pub mod session;
pub mod sha_hasher;
pub mod simple_token_generator;
pub mod store;
pub mod users;
pub mod uuid_generator;
