pub mod clock;
pub mod comment;
pub mod entity;
pub mod error;
pub mod repository;
pub mod repository_config;
pub mod row;
pub mod statement_wrapper;
pub mod ticket;
pub mod ticket_repository;
pub mod user;
pub mod user_repository;
