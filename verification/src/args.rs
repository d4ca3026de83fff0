//! The command line, and what it asks of the scheduler at start-up.

use vstd::prelude::*;

verus! {

/// The configuration file that is read where the command line names none.
pub const DEFAULT_CONFIG_FILE: &'static str = "esp-scheduler.yaml";

/// Command-line options of the scheduler.
#[derive(Clone, Debug)]
pub struct Args {
    /// Write a default configuration file and stop.
    pub init: bool,
    /// Path of the configuration file.
    pub config_file: Option<String>,
    /// Seconds to wait before the first tick.
    pub delay: Option<u32>,
    /// A local file to read the schedule from, in place of the network.
    pub file: Option<String>,
}

/// What the scheduler does when it starts.
#[derive(Clone, Copy, Debug, PartialEq, Eq, Structural)]
pub enum Startup {
    /// Write the default configuration to the configuration file, then stop.
    WriteDefaults,
    /// Stop: the configuration file exists and is not to be overwritten.
    RefuseOverwrite,
    /// Read the configuration and enter the loop.
    Run,
}

impl Startup {
    /// The exit code with which the process stops; `None` where it goes on
    /// into the loop.
    pub open spec fn exit_code_spec(self) -> Option<i32> {
        match self {
            Startup::WriteDefaults => Some(0i32),
            Startup::RefuseOverwrite => Some(1i32),
            Startup::Run => None,
        }
    }

    /// The exit code with which the process stops; `None` where it goes on
    /// into the loop.
    pub fn exit_code(self) -> (r: Option<i32>)
        ensures
            r == self.exit_code_spec(),
    {
        match self {
            Startup::WriteDefaults => Some(0),
            Startup::RefuseOverwrite => Some(1),
            Startup::Run => None,
        }
    }
}

impl Args {
    /// The path of the configuration file: as given, else the default.
    pub open spec fn config_path_spec(&self) -> Seq<char> {
        match self.config_file {
            Some(path) => path@,
            None => DEFAULT_CONFIG_FILE@,
        }
    }

    /// What to do at start-up, given whether the configuration file exists.
    pub open spec fn startup_spec(&self, config_exists: bool) -> Startup {
        if !self.init {
            Startup::Run
        } else if config_exists {
            Startup::RefuseOverwrite
        } else {
            Startup::WriteDefaults
        }
    }

    /// The path of the configuration file.
    pub fn config_path(&self) -> (r: &str)
        ensures
            r@ == self.config_path_spec(),
    {
        match &self.config_file {
            Some(path) => path.as_str(),
            None => DEFAULT_CONFIG_FILE,
        }
    }

    /// What to do at start-up. In initialization mode an existing
    /// configuration file is never overwritten.
    pub fn startup(&self, config_exists: bool) -> (r: Startup)
        ensures
            r == self.startup_spec(config_exists),
    {
        if !self.init {
            Startup::Run
        } else if config_exists {
            Startup::RefuseOverwrite
        } else {
            Startup::WriteDefaults
        }
    }

    /// Whether the schedule is read from a local file.
    pub fn reads_file(&self) -> (r: bool)
        ensures
            r == (self.file is Some),
    {
        self.file.is_some()
    }
}

} // verus!
