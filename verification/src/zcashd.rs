//! The handle of a running `zcashd`.

use vstd::prelude::*;
use vstd::string::*;
use crate::command::{
    CommandLine, control_command, option_text, owned, slice_texts, spec_control_command,
    spec_zcashd_command, texts, zcashd_command,
};
use crate::daemon::{DaemonKind, spec_stdout_log_name, stdout_log_name};
use crate::decimal::{decimal, spec_decimal};
use crate::error::{LaunchError, launch_result, spec_launch_error};
use crate::outcome::LaunchOutcome;
use crate::path::{join, spec_join};
use crate::port::Port;
use crate::stop::{StopAction, StopEvent, StopState, decide, spec_decide};
use crate::text::render_log;

verus! {

/// A `zcashd` that was found ready: its port, the directories that it owns,
/// and how far its stopping has come.
#[derive(Debug)]
pub struct Zcashd {
    port: Port,
    _data_dir: String,
    logs_dir: String,
    config_dir: String,
    zcash_cli_bin: Option<String>,
    stop: StopState,
}

pub struct ZcashdView {
    pub port: Port,
    pub data_dir: Seq<char>,
    pub logs_dir: Seq<char>,
    pub config_dir: Seq<char>,
    pub zcash_cli_bin: Option<Seq<char>>,
    /// How far the stopping of the daemon has come.
    pub stop: StopState,
}

impl ZcashdView {
    /// Where the daemon's configuration file is.
    pub open spec fn config_path(self) -> Seq<char> {
        spec_join(self.config_dir, DaemonKind::Zcashd.spec_config_file_name())
    }

    /// Where the daemon's standard output is kept.
    pub open spec fn stdout_log_path(self) -> Seq<char> {
        spec_join(self.logs_dir, spec_stdout_log_name())
    }
}

impl View for Zcashd {
    type V = ZcashdView;

    closed spec fn view(&self) -> ZcashdView {
        ZcashdView {
            port: self.port,
            data_dir: self._data_dir@,
            logs_dir: self.logs_dir@,
            config_dir: self.config_dir@,
            zcash_cli_bin: option_text(self.zcash_cli_bin),
            stop: self.stop,
        }
    }
}

impl Zcashd {
    /// The command line that starts `zcashd` on the configuration file in
    /// `config_dir`, with its data in `data_dir`. `zcashd_bin` names the
    /// program; without it `zcashd` is looked up on the search path.
    pub fn launch_command(zcashd_bin: &Option<String>, config_dir: &str, data_dir: &str) -> (line:
        CommandLine)
        ensures
            line@ == spec_zcashd_command(
                option_text(*zcashd_bin),
                spec_join(config_dir@, DaemonKind::Zcashd.spec_config_file_name()),
                data_dir@,
            ),
    {
        let config_file = join(config_dir, DaemonKind::Zcashd.config_file_name());
        zcashd_command(zcashd_bin, config_file.as_str(), data_dir)
    }

    /// Ends a launch. A daemon that was found ready gives its handle, which
    /// is not stopped; every other outcome gives the error that stands for
    /// it, under the name `zcashd`.
    pub fn launch(
        zcash_cli_bin: Option<String>,
        rpc_port: Port,
        data_dir: String,
        logs_dir: String,
        config_dir: String,
        outcome: LaunchOutcome,
    ) -> (result: Result<Zcashd, LaunchError>)
        ensures
            match result {
                Ok(zcashd) => {
                    &&& spec_launch_error(DaemonKind::Zcashd, outcome@) is None
                    &&& zcashd@ == ZcashdView {
                        port: rpc_port,
                        data_dir: data_dir@,
                        logs_dir: logs_dir@,
                        config_dir: config_dir@,
                        zcash_cli_bin: option_text(zcash_cli_bin),
                        stop: StopState::Running,
                    }
                },
                Err(error) => spec_launch_error(DaemonKind::Zcashd, outcome@) == Some(error@),
            },
    {
        match launch_result(DaemonKind::Zcashd, outcome) {
            Ok(_) => Ok(
                Zcashd {
                    port: rpc_port,
                    _data_dir: data_dir,
                    logs_dir,
                    config_dir,
                    zcash_cli_bin,
                    stop: StopState::Running,
                },
            ),
            Err(error) => Err(error),
        }
    }

    /// The port that the daemon listens on.
    pub fn port(&self) -> (port: &Port)
        ensures
            *port == self@.port,
    {
        &self.port
    }

    /// The directory that holds the daemon's data.
    pub fn _data_dir(&self) -> (dir: &String)
        ensures
            dir@ == self@.data_dir,
    {
        &self._data_dir
    }

    /// The directory that holds the daemon's log.
    pub fn logs_dir(&self) -> (dir: &String)
        ensures
            dir@ == self@.logs_dir,
    {
        &self.logs_dir
    }

    /// The directory that holds the daemon's configuration.
    pub fn config_dir(&self) -> (dir: &String)
        ensures
            dir@ == self@.config_dir,
    {
        &self.config_dir
    }

    /// The control program that the caller named, if any.
    pub fn zcash_cli_bin(&self) -> (bin: &Option<String>)
        ensures
            option_text(*bin) == self@.zcash_cli_bin,
    {
        &self.zcash_cli_bin
    }

    /// Whether the daemon has been stopped.
    pub fn is_stopped(&self) -> (stopped: bool)
        ensures
            stopped == (self@.stop is Stopped),
    {
        match self.stop {
            StopState::Stopped => true,
            _ => false,
        }
    }

    /// Returns path to config file.
    pub fn config_path(&self) -> (path: String)
        ensures
            path@ == self@.config_path(),
    {
        join(self.config_dir.as_str(), DaemonKind::Zcashd.config_file_name())
    }

    /// Returns path to the file that holds the daemon's standard output.
    pub fn stdout_log_path(&self) -> (path: String)
        ensures
            path@ == self@.stdout_log_path(),
    {
        join(self.logs_dir.as_str(), stdout_log_name())
    }

    /// The command line that runs a `zcash-cli` command with the given
    /// `args` against this daemon.
    pub fn zcash_cli_command(&self, args: &[&str]) -> (line: CommandLine)
        ensures
            line@ == spec_control_command(
                self@.zcash_cli_bin,
                self@.config_path(),
                slice_texts(args@),
            ),
    {
        let config_file = self.config_path();
        control_command(&self.zcash_cli_bin, config_file.as_str(), owned(args))
    }

    /// The command line that generates `num_blocks` blocks.
    pub fn generate_blocks(&self, num_blocks: u32) -> (line: CommandLine)
        ensures
            line@ == spec_control_command(
                self@.zcash_cli_bin,
                self@.config_path(),
                seq!["generate"@, spec_decimal(num_blocks as nat)],
            ),
    {
        let mut args: Vec<String> = Vec::new();
        args.push(String::from_str("generate"));
        args.push(decimal(num_blocks));
        assert(texts(args@) =~= seq![
            "generate"@,
            spec_decimal(num_blocks as nat),
        ]);
        let config_file = self.config_path();
        control_command(&self.zcash_cli_bin, config_file.as_str(), args)
    }

    /// The command line that asks the daemon to shut down.
    pub fn stop_command(&self) -> (line: CommandLine)
        ensures
            line@ == spec_control_command(
                self@.zcash_cli_bin,
                self@.config_path(),
                seq!["stop"@],
            ),
    {
        let mut args: Vec<String> = Vec::new();
        args.push(String::from_str("stop"));
        assert(texts(args@) =~= seq!["stop"@]);
        let config_file = self.config_path();
        control_command(&self.zcash_cli_bin, config_file.as_str(), args)
    }

    /// Stops the Zcashd process, one step at a time: takes in what the
    /// caller has seen and says what to do next. The stop ends only when the
    /// process has been waited for, or could not be killed. Only how far the
    /// stop has come changes.
    pub fn stop(&mut self, event: StopEvent) -> (action: StopAction)
        ensures
            (final(self)@.stop, action) == spec_decide(DaemonKind::Zcashd, old(self)@.stop, event),
            final(self)@ == (ZcashdView { stop: final(self)@.stop, ..old(self)@ }),
    {
        let (state, action) = decide(DaemonKind::Zcashd, self.stop, event);
        self.stop = state;
        action
    }

    /// What printing the stdout log writes: the log, then a line feed.
    pub fn print_stdout(&self, log: &[u8]) -> (printed: Vec<u8>)
        ensures
            printed@ == log@.push(10u8),
    {
        render_log(log)
    }
}

} // verus!
