//! Core of a user-account service: password hashing and verification,
//! signed expiring identity tokens, and the authentication and authorization
//! gates that guard protected routes, each with a verified contract. The
//! HTTP transport and the storage collaborator stay outside and hand the
//! core plain values.

pub mod auth;
pub mod config;
pub mod decimal;
pub mod dtos;
pub mod error;
pub mod mail;
pub mod models;
pub mod password;
pub mod service;
pub mod token;
