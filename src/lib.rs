//! Task-management backend core: task rows and their partial updates,
//! user accounts and login decisions, signed claims, notification e-mails
//! and the error taxonomy shared by all of them.

pub mod config;
pub mod email;
pub mod error;
pub mod handlers;
pub mod jwt;
pub mod records;
pub mod repository;
pub mod stats;
pub mod task;
pub mod text;
pub mod user;
pub mod validation;
