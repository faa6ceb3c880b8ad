pub mod entity;
pub mod gateway;
pub mod record;
pub mod usecase;
