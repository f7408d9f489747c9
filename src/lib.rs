//! Core of a desktop front end for a depot download tool: the command line it
//! is run with, the facts read from its console output, the job record that
//! follows a download, and the steps that turn the tool's output into a
//! library-ready folder with its app manifest.

pub mod text;
pub mod request;
pub mod depots;
pub mod datetime;
pub mod grammar;
pub mod stamps;
pub mod assoc;
pub mod preflight;
pub mod job_state;
pub mod auth;
pub mod job_metadata;
pub mod resolver;
pub mod vdf;
pub mod acf;
pub mod finalize;
pub mod conflict;
pub mod template;
pub mod login;
pub mod rss;
pub mod zip;
pub mod stream;
pub mod console;
pub mod runner;
pub mod job_id;
