//! Parsing of the command line that the launching framework passes to a bot
//! process.
//!
//! The framework launches a bot with exactly
//! `--rlbot-version <v> --rlbot-dll-directory <dir> --player-index <i>`.
//! A command line that does not even start with the version flag means the
//! process was launched some other way (not an error); one that starts with
//! it but does not follow the shape above is rejected.

use vstd::prelude::*;
use vstd::string::*;

use crate::parse::{parse_i32, spec_parse_i32};

verus! {

/// The arguments passed by the framework when it launched this process.
#[derive(Clone, Debug)]
#[non_exhaustive]
pub struct FrameworkArgs {
    /// The version of the framework used to launch the app.
    pub rlbot_version: String,
    /// The directory containing the core interface library and the injector.
    pub rlbot_dll_directory: String,
    /// The index of the player this process controls.
    pub player_index: i32,
}

/// The command line claims a framework launch: its first argument is the
/// version flag.
pub open spec fn launched_by_framework(args: Seq<String>) -> bool {
    args.len() > 0 && args[0]@ == "--rlbot-version"@
}

/// The command line carries a well-formed version and directory prefix.
pub open spec fn version_directory_ok(args: Seq<String>) -> bool {
    &&& args.len() >= 4
    &&& args[0]@ == "--rlbot-version"@
    &&& args[2]@ == "--rlbot-dll-directory"@
}

/// The whole command line is a well-formed framework launch.
pub open spec fn framework_args_ok(args: Seq<String>) -> bool {
    &&& args.len() >= 6
    &&& version_directory_ok(args)
    &&& args[4]@ == "--player-index"@
    &&& spec_parse_i32(args[5]@) is Some
}

/// Reads the leading `--rlbot-version <v> --rlbot-dll-directory <dir>` pair
/// shared by every framework launch.
///
/// Returns `Ok(None)` when the command line does not claim a framework
/// launch at all, `Ok(Some((version, directory)))` when the prefix is
/// well formed, and `Err(())` when it claims a launch but is malformed.
pub fn parse_version_and_directory(args: &Vec<String>) -> (r: Result<Option<(String, String)>, ()>)
    ensures
        match r {
            Ok(None) => !launched_by_framework(args@),
            Ok(Some((v, d))) => version_directory_ok(args@) && v@ == args@[1]@ && d@ == args@[3]@,
            Err(_) => launched_by_framework(args@) && !version_directory_ok(args@),
        },
{
    let version_flag = String::from_str("--rlbot-version");
    let directory_flag = String::from_str("--rlbot-dll-directory");
    if args.len() == 0 || !(args[0] == version_flag) {
        return Ok(None);
    }
    if args.len() < 4 {
        return Err(());
    }
    if !(args[2] == directory_flag) {
        return Err(());
    }
    Ok(Some((args[1].clone(), args[3].clone())))
}

/// Parses a full framework command line (the arguments after the program
/// name).
///
/// Returns `Ok(None)` when the process was not launched by the framework,
/// `Ok(Some(args))` when the command line is a well-formed launch, and
/// `Err(())` when it claims a launch but is malformed.
pub fn parse_framework_command_line(args: &Vec<String>) -> (r: Result<Option<FrameworkArgs>, ()>)
    ensures
        match r {
            Ok(None) => !launched_by_framework(args@),
            Ok(Some(fa)) => framework_args_ok(args@) && fa.rlbot_version@ == args@[1]@
                && fa.rlbot_dll_directory@ == args@[3]@ && Some(fa.player_index) == spec_parse_i32(
                args@[5]@,
            ),
            Err(_) => launched_by_framework(args@) && !framework_args_ok(args@),
        },
{
    let prefix = parse_version_and_directory(args);
    let (rlbot_version, rlbot_dll_directory) = match prefix {
        Ok(None) => {
            return Ok(None);
        },
        Err(()) => {
            return Err(());
        },
        Ok(Some(pair)) => pair,
    };
    let index_flag = String::from_str("--player-index");
    if args.len() < 6 {
        return Err(());
    }
    if !(args[4] == index_flag) {
        return Err(());
    }
    let player_index = match parse_i32(args[5].as_str()) {
        Some(i) => i,
        None => {
            return Err(());
        },
    };
    Ok(
        Some(
            FrameworkArgs {
                rlbot_version,
                rlbot_dll_directory,
                player_index,
            },
        ),
    )
}

} // verus!
