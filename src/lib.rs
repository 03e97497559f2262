//! An in-memory model of deployment projects: a project groups named
//! environments, and an application is named directly or after the final
//! component of a filesystem path.

pub mod application;
pub mod environment;
pub mod project;
