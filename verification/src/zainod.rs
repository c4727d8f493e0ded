//! The handle of a running `zainod`.

use vstd::prelude::*;
use vstd::string::*;
use crate::command::{CommandLine, option_text, spec_zainod_command, zainod_command};
use crate::daemon::{DaemonKind, spec_stdout_log_name, stdout_log_name};
use crate::error::{LaunchError, launch_result, spec_launch_error};
use crate::outcome::LaunchOutcome;
use crate::path::{join, spec_join};
use crate::port::Port;
use crate::stop::{StopAction, StopEvent, StopState, decide, spec_decide};
use crate::text::render_log;

verus! {

/// A `zainod` that was found ready: its port, the directories that it owns,
/// and how far its stopping has come.
#[derive(Debug)]
pub struct Zainod {
    port: Port,
    logs_dir: String,
    config_dir: String,
    stop: StopState,
}

pub struct ZainodView {
    pub port: Port,
    pub logs_dir: Seq<char>,
    pub config_dir: Seq<char>,
    /// How far the stopping of the daemon has come.
    pub stop: StopState,
}

impl ZainodView {
    /// Where the daemon's configuration file is.
    pub open spec fn config_path(self) -> Seq<char> {
        spec_join(self.config_dir, DaemonKind::Zainod.spec_config_file_name())
    }

    /// Where the daemon's standard output is kept.
    pub open spec fn stdout_log_path(self) -> Seq<char> {
        spec_join(self.logs_dir, spec_stdout_log_name())
    }
}

impl View for Zainod {
    type V = ZainodView;

    closed spec fn view(&self) -> ZainodView {
        ZainodView {
            port: self.port,
            logs_dir: self.logs_dir@,
            config_dir: self.config_dir@,
            stop: self.stop,
        }
    }
}

impl Zainod {
    /// The command line that starts `zainod` on the configuration file in
    /// `config_dir`. `zainod_bin` names the program; without it `zainod` is
    /// looked up on the search path.
    pub fn launch_command(zainod_bin: &Option<String>, config_dir: &str) -> (line: CommandLine)
        ensures
            line@ == spec_zainod_command(
                option_text(*zainod_bin),
                spec_join(config_dir@, DaemonKind::Zainod.spec_config_file_name()),
            ),
    {
        let config_file = join(config_dir, DaemonKind::Zainod.config_file_name());
        zainod_command(zainod_bin, config_file.as_str())
    }

    /// Ends a launch. A daemon that was found ready gives its handle, which
    /// is not stopped; every other outcome gives the error that stands for
    /// it, under the name `zainod`.
    pub fn launch(
        listen_port: Port,
        logs_dir: String,
        config_dir: String,
        outcome: LaunchOutcome,
    ) -> (result: Result<Zainod, LaunchError>)
        ensures
            match result {
                Ok(zainod) => {
                    &&& spec_launch_error(DaemonKind::Zainod, outcome@) is None
                    &&& zainod@ == ZainodView {
                        port: listen_port,
                        logs_dir: logs_dir@,
                        config_dir: config_dir@,
                        stop: StopState::Running,
                    }
                },
                Err(error) => spec_launch_error(DaemonKind::Zainod, outcome@) == Some(error@),
            },
    {
        match launch_result(DaemonKind::Zainod, outcome) {
            Ok(_) => Ok(Zainod { port: listen_port, logs_dir, config_dir, stop: StopState::Running }),
            Err(error) => Err(error),
        }
    }

    /// The port that the daemon listens on.
    pub fn port(&self) -> (port: &Port)
        ensures
            *port == self@.port,
    {
        &self.port
    }

    /// The directory that holds the daemon's log.
    pub fn logs_dir(&self) -> (dir: &String)
        ensures
            dir@ == self@.logs_dir,
    {
        &self.logs_dir
    }

    /// The directory that holds the daemon's configuration.
    pub fn config_dir(&self) -> (dir: &String)
        ensures
            dir@ == self@.config_dir,
    {
        &self.config_dir
    }

    /// Whether the daemon has been stopped.
    pub fn is_stopped(&self) -> (stopped: bool)
        ensures
            stopped == (self@.stop is Stopped),
    {
        match self.stop {
            StopState::Stopped => true,
            _ => false,
        }
    }

    /// Returns path to config file.
    pub fn config_path(&self) -> (path: String)
        ensures
            path@ == self@.config_path(),
    {
        join(self.config_dir.as_str(), DaemonKind::Zainod.config_file_name())
    }

    /// Returns path to the file that holds the daemon's standard output.
    pub fn stdout_log_path(&self) -> (path: String)
        ensures
            path@ == self@.stdout_log_path(),
    {
        join(self.logs_dir.as_str(), stdout_log_name())
    }

    /// Stops the Zainod process, one step at a time: takes in what the
    /// caller has seen and says what to do next. The stop ends only when the
    /// process has been waited for, or could not be killed. Only how far the
    /// stop has come changes.
    pub fn stop(&mut self, event: StopEvent) -> (action: StopAction)
        ensures
            (final(self)@.stop, action) == spec_decide(DaemonKind::Zainod, old(self)@.stop, event),
            final(self)@ == (ZainodView { stop: final(self)@.stop, ..old(self)@ }),
    {
        let (state, action) = decide(DaemonKind::Zainod, self.stop, event);
        self.stop = state;
        action
    }

    /// What printing the stdout log writes: the log, then a line feed.
    pub fn print_stdout(&self, log: &[u8]) -> (printed: Vec<u8>)
        ensures
            printed@ == log@.push(10u8),
    {
        render_log(log)
    }
}

} // verus!
