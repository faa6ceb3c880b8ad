pub mod entity;
pub mod gateway;
pub mod payload;
pub mod usecase;
