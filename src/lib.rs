pub mod diagnostic;
pub mod protocol;
pub mod text;
pub mod render;
pub mod env_asset;
