//! The command lines that start a daemon and that control it.

use vstd::prelude::*;
use vstd::string::*;
use crate::daemon::{DaemonKind, control_program, spec_control_program};

verus! {

/// A program and the arguments to run it with.
#[derive(Debug)]
pub struct CommandLine {
    pub program: String,
    pub args: Vec<String>,
}

pub struct CommandLineView {
    pub program: Seq<char>,
    pub args: Seq<Seq<char>>,
}

/// The text of each of some strings.
pub open spec fn texts(strings: Seq<String>) -> Seq<Seq<char>> {
    Seq::new(strings.len(), |i: int| strings[i]@)
}

/// The text of each of some string slices.
pub open spec fn slice_texts(strings: Seq<&str>) -> Seq<Seq<char>> {
    Seq::new(strings.len(), |i: int| strings[i]@)
}

impl View for CommandLine {
    type V = CommandLineView;

    open spec fn view(&self) -> CommandLineView {
        CommandLineView { program: self.program@, args: texts(self.args@) }
    }
}

/// The program to run: the one that the caller names, else the one found
/// under the default name.
pub open spec fn spec_program(chosen: Option<Seq<char>>, default: Seq<char>) -> Seq<char> {
    match chosen {
        Some(path) => path,
        None => default,
    }
}

/// The text of an optional string.
pub open spec fn option_text(text: Option<String>) -> Option<Seq<char>> {
    match text {
        Some(text) => Some(text@),
        None => None,
    }
}

/// The program to run: `chosen`, or `default` where none is chosen.
pub fn program(chosen: &Option<String>, default: &str) -> (program: String)
    ensures
        program@ == spec_program(option_text(*chosen), default@),
{
    match chosen {
        Some(path) => path.clone(),
        None => String::from_str(default),
    }
}

/// How `zcashd` is started: it prints to the console, reads this
/// configuration file, keeps its data in this directory, and logs for
/// debugging.
pub open spec fn spec_zcashd_command(
    zcashd_bin: Option<Seq<char>>,
    config_file: Seq<char>,
    data_dir: Seq<char>,
) -> CommandLineView {
    CommandLineView {
        program: spec_program(zcashd_bin, DaemonKind::Zcashd.spec_process_name()),
        args: seq![
            "--printtoconsole"@,
            "--conf="@ + config_file,
            "--datadir="@ + data_dir,
            "-debug=1"@,
        ],
    }
}

/// The command line that starts `zcashd`.
pub fn zcashd_command(zcashd_bin: &Option<String>, config_file: &str, data_dir: &str) -> (line:
    CommandLine)
    ensures
        line@ == spec_zcashd_command(option_text(*zcashd_bin), config_file@, data_dir@),
{
    let mut args: Vec<String> = Vec::new();
    args.push(String::from_str("--printtoconsole"));
    args.push(String::from_str("--conf=").concat(config_file));
    args.push(String::from_str("--datadir=").concat(data_dir));
    args.push(String::from_str("-debug=1"));
    let line = CommandLine {
        program: program(zcashd_bin, DaemonKind::Zcashd.process_name()),
        args,
    };
    assert(line@.args =~= spec_zcashd_command(
        option_text(*zcashd_bin),
        config_file@,
        data_dir@,
    ).args);
    line
}

/// How `zainod` is started: it reads this configuration file.
pub open spec fn spec_zainod_command(
    zainod_bin: Option<Seq<char>>,
    config_file: Seq<char>,
) -> CommandLineView {
    CommandLineView {
        program: spec_program(zainod_bin, DaemonKind::Zainod.spec_process_name()),
        args: seq!["--config"@, config_file],
    }
}

/// The command line that starts `zainod`.
pub fn zainod_command(zainod_bin: &Option<String>, config_file: &str) -> (line: CommandLine)
    ensures
        line@ == spec_zainod_command(option_text(*zainod_bin), config_file@),
{
    let mut args: Vec<String> = Vec::new();
    args.push(String::from_str("--config"));
    args.push(String::from_str(config_file));
    let line = CommandLine {
        program: program(zainod_bin, DaemonKind::Zainod.process_name()),
        args,
    };
    assert(line@.args =~= spec_zainod_command(option_text(*zainod_bin), config_file@).args);
    line
}

/// How a running `zcashd` is given a command: the control program is told
/// the daemon's configuration file, and then the command.
pub open spec fn spec_control_command(
    cli_bin: Option<Seq<char>>,
    config_file: Seq<char>,
    args: Seq<Seq<char>>,
) -> CommandLineView {
    CommandLineView {
        program: spec_program(cli_bin, spec_control_program()),
        args: seq!["-conf="@ + config_file] + args,
    }
}

/// The command line that gives a running `zcashd` a command.
pub fn control_command(cli_bin: &Option<String>, config_file: &str, args: Vec<String>) -> (line:
    CommandLine)
    ensures
        line@ == spec_control_command(option_text(*cli_bin), config_file@, texts(args@)),
{
    let mut args = args;
    let ghost given = args@;
    let mut all: Vec<String> = Vec::new();
    all.push(String::from_str("-conf=").concat(config_file));
    all.append(&mut args);
    assert(texts(all@) =~= seq!["-conf="@ + config_file@] + texts(given));
    CommandLine { program: program(cli_bin, control_program()), args: all }
}

/// Owned copies of some string slices.
pub fn owned(strings: &[&str]) -> (copies: Vec<String>)
    ensures
        texts(copies@) == slice_texts(strings@),
{
    let mut copies: Vec<String> = Vec::new();
    let count: usize = strings.len();
    let mut i: usize = 0;
    while i < count
        invariant
            i <= count,
            count == strings@.len(),
            texts(copies@) == slice_texts(strings@).take(i as int),
        decreases count - i,
    {
        let ghost before = texts(copies@);
        copies.push(String::from_str(strings[i]));
        i += 1;
        proof {
            let taken = slice_texts(strings@).take(i as int);
            assert(taken =~= slice_texts(strings@).take(i - 1).push(strings@[i - 1]@));
            assert(texts(copies@) =~= before.push(strings@[i - 1]@));
        }
    }
    assert(slice_texts(strings@).take(count as int) =~= slice_texts(strings@));
    copies
}

} // verus!
