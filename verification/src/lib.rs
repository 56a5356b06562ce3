//! Durable tasks and workflows that live entirely in PostgreSQL.

pub mod bench;
pub mod binding;
pub mod calendar;
pub mod cli;
pub mod control;
pub mod error;
pub mod escape;
pub mod execution;
pub mod health;
pub mod identifier;
pub mod json;
pub mod leases;
pub mod metrics;
pub mod model;
pub mod notification;
pub mod number;
pub mod pages;
pub mod propagation;
pub mod protocol;
pub mod registry;
pub mod requests;
pub mod retry;
pub mod rows;
pub mod runtime;
pub mod schedule;
pub mod settings;
pub mod store;
pub mod table;
pub mod task;
pub mod text;
pub mod time;
pub mod unique;
pub mod web;
pub mod worker;
