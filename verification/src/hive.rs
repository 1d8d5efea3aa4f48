//! The hivemind flavour of the framework boundary: one process controls a
//! whole set of bots ("drones") instead of a single player.
//!
//! Besides the command-line parsing (which replaces the single player index
//! with a comma-separated list of drone indices), this module holds the one
//! decision the hivemind game loop makes on its own: of the inputs a
//! hivemind hands back each tick, only those addressed to indices it
//! actually controls are forwarded to the game.

use vstd::prelude::*;
use vstd::string::*;

use crate::framework::{launched_by_framework, parse_version_and_directory, version_directory_ok};
use crate::parse::{parse_i32_list, spec_parse_i32_list};

verus! {

/// The arguments passed by the framework when it launched a hivemind.
#[derive(Clone, Debug)]
#[non_exhaustive]
pub struct HiveFrameworkArgs {
    /// The version of the framework used to launch the app.
    pub rlbot_version: String,
    /// The directory containing the core interface library and the injector.
    pub rlbot_dll_directory: String,
    /// The indices of the bots this process controls.
    pub drone_indices: Vec<i32>,
}

/// The whole command line is a well-formed hivemind launch.
pub open spec fn hive_args_ok(args: Seq<String>) -> bool {
    &&& args.len() >= 6
    &&& version_directory_ok(args)
    &&& args[4]@ == "--drone-indices"@
    &&& spec_parse_i32_list(args[5]@) is Some
}

/// Parses a full hivemind command line (the arguments after the program
/// name). The drone indices are written as comma-separated integers, e.g.
/// `0,1,2,3,4,5`.
///
/// Returns `Ok(None)` when the process was not launched by the framework,
/// `Ok(Some(args))` when the command line is a well-formed hivemind launch,
/// and `Err(())` when it claims a launch but is malformed.
pub fn parse_framework_command_line(args: &Vec<String>) -> (r: Result<
    Option<HiveFrameworkArgs>,
    (),
>)
    ensures
        match r {
            Ok(None) => !launched_by_framework(args@),
            Ok(Some(ha)) => hive_args_ok(args@) && ha.rlbot_version@ == args@[1]@
                && ha.rlbot_dll_directory@ == args@[3]@ && Some(ha.drone_indices@)
                == spec_parse_i32_list(args@[5]@),
            Err(_) => launched_by_framework(args@) && !hive_args_ok(args@),
        },
{
    let prefix = parse_version_and_directory(args);
    let (rlbot_version, rlbot_dll_directory) = match prefix {
        Ok(None) => {
            return Ok(None);
        },
        Err(()) => {
            return Err(());
        },
        Ok(Some(pair)) => pair,
    };
    let drones_flag = String::from_str("--drone-indices");
    if args.len() < 6 {
        return Err(());
    }
    if !(args[4] == drones_flag) {
        return Err(());
    }
    let drone_indices = match parse_i32_list(args[5].as_str()) {
        Some(v) => v,
        None => {
            return Err(());
        },
    };
    Ok(
        Some(
            HiveFrameworkArgs {
                rlbot_version,
                rlbot_dll_directory,
                drone_indices,
            },
        ),
    )
}

/// The inputs of `inputs` whose index is one of `drones`, in their original
/// order.
pub open spec fn drone_selected<C>(inputs: Seq<(usize, C)>, drones: Seq<usize>) -> Seq<(usize, C)>
    decreases inputs.len(),
{
    if inputs.len() == 0 {
        Seq::empty()
    } else {
        let rest = drone_selected(inputs.drop_last(), drones);
        if drones.contains(inputs.last().0) {
            rest.push(inputs.last())
        } else {
            rest
        }
    }
}

/// Whether `x` occurs in `xs`.
fn contains_index(xs: &Vec<usize>, x: usize) -> (r: bool)
    ensures
        r == xs@.contains(x),
{
    let mut i: usize = 0;
    while i < xs.len()
        invariant
            i <= xs.len(),
            forall|j: int| 0 <= j < i ==> xs@[j] != x,
        decreases xs.len() - i,
    {
        if xs[i] == x {
            return true;
        }
        i = i + 1;
    }
    assert(!xs@.contains(x));
    false
}

/// Keeps exactly the inputs addressed to an index among `drone_indices`,
/// in their original order; everything else is discarded. A hivemind that
/// tries to steer an index it does not control is thereby ignored.
pub fn select_drone_inputs<C>(inputs: Vec<(usize, C)>, drone_indices: &Vec<usize>) -> (r: Vec<
    (usize, C),
>)
    ensures
        r@ == drone_selected(inputs@, drone_indices@),
    decreases inputs@.len(),
{
    let mut inputs = inputs;
    let ghost whole = inputs@;
    match inputs.pop() {
        None => {
            assert(whole.len() == 0);
            Vec::new()
        },
        Some(last) => {
            assert(inputs@ =~= whole.drop_last());
            assert(last == whole.last());
            let mut r = select_drone_inputs(inputs, drone_indices);
            if contains_index(drone_indices, last.0) {
                r.push(last);
            }
            r
        },
    }
}

} // verus!
