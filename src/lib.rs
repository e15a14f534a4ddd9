pub mod action;
pub mod button;
pub mod config;
pub mod decode;
pub mod device;
pub mod poll;
pub mod resolve;
