pub mod arguments;
pub mod json;
pub mod processor;
pub mod provider;
pub mod storage;
