pub mod app;
pub mod cache;
pub mod html;
pub mod stack;
