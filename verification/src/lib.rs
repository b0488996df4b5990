//! The decisions of an email verification backend.

pub mod check_email;
pub mod csv;
pub mod headers;
pub mod health;
pub mod json;
pub mod message;
pub mod reachability;
pub mod smtp_probe;
pub mod smtp_script;
pub mod storage;
pub mod task;
pub mod task_id;
pub mod text;
pub mod verif_method;
pub mod webhook;
pub mod worker;
