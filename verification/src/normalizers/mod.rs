pub mod character;
pub mod encoding;
pub mod word;
