pub mod att;
pub mod characteristic;
pub mod decode;
pub mod manager;
pub mod notify;
pub mod peripheral;
pub mod properties;
pub mod stream;
pub mod summary;
pub mod types;
