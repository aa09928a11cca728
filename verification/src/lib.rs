//! A deployment control plane: webhooks become queued jobs, jobs run the steps of
//! a project's pipeline one branch at a time, and what they deployed can be
//! deployed again.

pub mod api;
pub mod artifact;
pub mod auth;
pub mod config;
pub mod healthcheck;
pub mod history;
pub mod job;
pub mod operator;
pub mod outside;
pub mod pipeline;
pub mod queue;
pub mod records;
pub mod run;
pub mod shell;
pub mod signature;
pub mod status;
pub mod store;
pub mod template;
pub mod text;
pub mod time;
pub mod webhook;
