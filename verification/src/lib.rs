//! The rules of a command line client for an infrastructure management
//! service, with the deployment of a service at their centre: which files
//! of a checkout go into a build package, what is sent to the build worker,
//! how long a job is waited for, and in which order the steps of a
//! deployment follow one another.
//!
//! The library decides and computes; reading files, talking to a server or
//! to a build worker is left to its caller.  Every function comes with a
//! contract over the mathematical value of its arguments and its result.

pub mod api;
pub mod db;
pub mod deploy;
pub mod ecr;
pub mod ecs;
pub mod environments;
pub mod errors;
pub mod exclusion;
pub mod package;
pub mod poller;
pub mod projects;
pub mod remote;
pub mod schemas;
pub mod services;
pub mod staging;
pub mod text;
pub mod version;
