pub mod ident;
pub mod message;
pub mod builder;
pub mod wire;
pub mod vfs;
pub mod capability;
