//! The settings that the server is started with, and their defaults.

use crate::work_queue::worker_count;
use crate::work_queue::workers_for;
use vstd::prelude::*;

verus! {

/// The document root where none is given: the working directory.
pub const DEFAULT_DOCUMENT_ROOT: &'static str = ".";

/// The port where none is given.
pub const DEFAULT_PORT: u16 = 3000;

/// How much is logged.
#[derive(Debug, Clone, Copy, PartialEq, Eq, Structural)]
pub enum LogLevel {
    /// Nothing.
    Off,
    /// Errors only.
    Error,
    /// Errors, and a line for each request.
    Info,
}

/// The settings, as they were given.
#[derive(Debug, Clone, PartialEq, Eq)]
pub struct CommandLine {
    /// Number of workers; the parallelism of the machine where none or 0
    /// is given.
    pub concurrency: Option<usize>,
    /// Directory below which the served files lie.
    pub document_root: Option<String>,
    /// Port to listen on.
    pub port: Option<u16>,
    /// Log errors only.
    pub quiet: Option<bool>,
    /// Log nothing.
    pub silent: bool,
    /// How often verbose logging was asked for.
    pub verbose: u8,
}

impl CommandLine {
    /// The level of logging that the settings ask for: none when silent,
    /// errors only when quiet, and a line for each request otherwise.
    pub open spec fn level(&self) -> LogLevel {
        if self.silent {
            LogLevel::Off
        } else if self.quiet == Some(true) {
            LogLevel::Error
        } else {
            LogLevel::Info
        }
    }

    /// The document root: the one given, or the working directory.
    pub fn root(&self) -> (root: String)
        ensures
            root@ == match self.document_root {
                Some(given) => given@,
                None => DEFAULT_DOCUMENT_ROOT@,
            },
    {
        match &self.document_root {
            Some(given) => given.clone(),
            None => DEFAULT_DOCUMENT_ROOT.to_owned(),
        }
    }

    /// The port to listen on: the one given, or 3000.
    pub fn listen_port(&self) -> (port: u16)
        ensures
            port == match self.port {
                Some(given) => given,
                None => DEFAULT_PORT,
            },
    {
        match self.port {
            Some(given) => given,
            None => DEFAULT_PORT,
        }
    }

    /// The level of logging that the settings ask for.
    pub fn log_level(&self) -> (level: LogLevel)
        ensures
            level == self.level(),
    {
        if self.silent {
            LogLevel::Off
        } else {
            match self.quiet {
                Some(true) => LogLevel::Error,
                _ => LogLevel::Info,
            }
        }
    }

    /// The number of workers on a machine that offers `available` threads.
    pub fn workers(&self, available: usize) -> (threads: usize)
        ensures
            threads == workers_for(self.concurrency, available),
            threads >= 1,
    {
        worker_count(self.concurrency, available)
    }
}

} // verus!
