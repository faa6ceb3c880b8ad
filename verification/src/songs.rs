pub mod entity;
pub mod gateway;
pub mod usecase;
