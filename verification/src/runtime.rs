//! Process-wide runtime settings: desktop or XR mode, the XR exit signal,
//! and the reading of the command line.

use vstd::prelude::*;
use crate::text::{str_eq, str_starts_with, owned, seq_starts_with};

verus! {

broadcast use vstd::string::group_string_axioms;

/// Whether the host drives a desktop window or an XR headset.
#[derive(Clone, Copy, Debug, PartialEq, Eq, Structural)]
pub enum RuntimeMode {
    Desktop,
    XR,
}

/// Runtime flags: the mode, set at most once, and the sticky XR exit signal.
#[derive(Clone, Copy, Debug, PartialEq, Eq, Structural)]
pub struct RuntimeFlags {
    pub mode: Option<RuntimeMode>,
    pub xr_should_exit: bool,
}

impl RuntimeFlags {
    /// No mode chosen yet, no exit signalled.
    pub fn new() -> (f: Self)
        ensures
            f.mode is None,
            !f.xr_should_exit,
    {
        RuntimeFlags { mode: None, xr_should_exit: false }
    }
}

/// The mode in force: the one set first, or desktop when none was set.
pub open spec fn mode_spec(f: RuntimeFlags) -> RuntimeMode {
    match f.mode {
        Some(m) => m,
        None => RuntimeMode::Desktop,
    }
}

/// The mode in force.
pub fn get_runtime_mode(flags: &RuntimeFlags) -> (r: RuntimeMode)
    ensures
        r == mode_spec(*flags),
{
    match flags.mode {
        Some(m) => m,
        None => RuntimeMode::Desktop,
    }
}

/// Sets the mode unless one is already set; the first setting wins.
pub fn set_runtime_mode(flags: &mut RuntimeFlags, mode: RuntimeMode)
    ensures
        final(flags).mode == (match old(flags).mode {
            Some(m) => Some(m),
            None => Some(mode),
        }),
        final(flags).xr_should_exit == old(flags).xr_should_exit,
{
    if flags.mode.is_none() {
        flags.mode = Some(mode);
    }
}

/// Signals the XR loop to exit.
pub fn signal_xr_exit(flags: &mut RuntimeFlags)
    ensures
        final(flags).xr_should_exit,
        final(flags).mode == old(flags).mode,
{
    flags.xr_should_exit = true;
}

/// Whether the XR loop should exit.
pub fn should_exit_xr(flags: &RuntimeFlags) -> (r: bool)
    ensures
        r == flags.xr_should_exit,
{
    flags.xr_should_exit
}

/// Once a mode is set, setting another leaves it in force, and reading it
/// gives it back.
pub proof fn lemma_first_mode_wins(f: RuntimeFlags, m: RuntimeMode)
    requires
        f.mode == Some(m),
    ensures
        mode_spec(f) == m,
        mode_spec(RuntimeFlags { mode: Some(m), ..f }) == m,
{
}

/// How the host was started.
#[derive(Clone, Debug)]
pub struct LaunchOptions {
    pub xr_mode: bool,
    pub clear_db: bool,
    pub script_path: String,
}

/// The first argument, other than the program name, that is not a flag
/// (does not start with `-`) and differs from the program name.
pub open spec fn first_script_index(args: Seq<Seq<char>>, from: int) -> Option<int>
    decreases args.len() - from,
{
    if from >= args.len() || from < 0 {
        None
    } else if !seq_starts_with(args[from], "-"@) && args[from] != args[0] {
        Some(from)
    } else {
        first_script_index(args, from + 1)
    }
}

pub open spec fn arg_views(args: Seq<String>) -> Seq<Seq<char>> {
    args.map_values(|a: String| a@)
}

/// Reads the command line: `--xr` selects XR mode, `--clear-db` wipes the
/// databases, and the script is the first argument that is not a flag and
/// is not the program name, else `js/entry.js`.
pub fn parse_launch_args(args: &Vec<String>) -> (r: LaunchOptions)
    ensures
        r.xr_mode == (exists|i: int| 0 <= i < args@.len() && #[trigger] args@[i]@ == "--xr"@),
        r.clear_db == (exists|i: int| 0 <= i < args@.len() && #[trigger] args@[i]@ == "--clear-db"@),
        r.script_path@ == (match first_script_index(arg_views(args@), 0) {
            Some(i) => args@[i]@,
            None => "js/entry.js"@,
        }),
{
    let mut xr = false;
    let mut clear = false;
    let mut i: usize = 0;
    while i < args.len()
        invariant
            i <= args.len(),
            xr == (exists|k: int| 0 <= k < i && #[trigger] args@[k]@ == "--xr"@),
            clear == (exists|k: int| 0 <= k < i && #[trigger] args@[k]@ == "--clear-db"@),
        decreases args.len() - i,
    {
        if str_eq(args[i].as_str(), "--xr") {
            xr = true;
        }
        if str_eq(args[i].as_str(), "--clear-db") {
            clear = true;
        }
        i = i + 1;
    }
    let ghost views = arg_views(args@);
    let mut script: Option<usize> = None;
    if args.len() > 0 {
        let mut j: usize = 0;
        while j < args.len() && script.is_none()
            invariant
                j <= args.len(),
                args.len() > 0,
                views == arg_views(args@),
                script is None ==> first_script_index(views, 0) == first_script_index(views, j as int),
                script matches Some(k) ==> first_script_index(views, 0) == Some(k as int) && k < args.len(),
            decreases args.len() - j,
        {
            assert(views[j as int] == args@[j as int]@);
            assert(views[0] == args@[0]@);
            if !str_starts_with(args[j].as_str(), "-") && !str_eq(args[j].as_str(), args[0].as_str()) {
                script = Some(j);
            }
            j = j + 1;
        }
    }
    let script_path = match script {
        Some(k) => args[k].clone(),
        None => owned("js/entry.js"),
    };
    LaunchOptions { xr_mode: xr, clear_db: clear, script_path }
}

} // verus!
