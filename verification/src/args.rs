//! The launch-parameter scan: which one-shot command the arguments select,
//! or the run configuration they accumulate. Printing, exiting, and the
//! signup exchange itself live with the caller.

use vstd::prelude::*;
use crate::strutil::{is_decimal, milli_value, parse_milli, str_eq};

verus! {

/// The run configuration the arguments accumulate: the collection interval
/// in milliseconds (default one second) and whether sending is disabled.
#[derive(Clone, Copy, Debug, PartialEq, Eq, Structural)]
pub struct ArgParser {
    pub interval_ms: u64,
    pub offline: bool,
}

/// What the launch parameters ask for: a one-shot command that ends the
/// process, a parameter error, or a normal run.
#[derive(Debug)]
pub enum ArgOutcome {
    Help,
    Version,
    Signup { key: String },
    MissingSignupKey,
    MissingIntervalValue,
    BadInterval,
    Run { parser: ArgParser },
}

/// The scan's meaning, one argument at a time from position `i` with the
/// settings accumulated so far: the first one-shot flag wins, an interval
/// flag consumes its value, an offline flag sets its switch, anything else
/// is ignored.
pub open spec fn outcome_ok(
    args: Seq<String>,
    i: int,
    interval_ms: u64,
    offline: bool,
    r: ArgOutcome,
) -> bool
    decreases args.len() - i,
{
    if i < 0 || i >= args.len() {
        r matches ArgOutcome::Run { parser } && parser.interval_ms == interval_ms
            && parser.offline == offline
    } else {
        let a = args[i]@;
        if a == "-h"@ || a == "--help"@ {
            r is Help
        } else if a == "-v"@ || a == "--version"@ {
            r is Version
        } else if a == "-su"@ || a == "--signup"@ {
            if i + 1 < args.len() {
                r matches ArgOutcome::Signup { key } && key@ == args[i + 1]@
            } else {
                r is MissingSignupKey
            }
        } else if a == "-i"@ || a == "--interval"@ {
            if i + 1 < args.len() {
                if is_decimal(args[i + 1]@) && milli_value(args[i + 1]@) <= u64::MAX {
                    outcome_ok(args, i + 2, milli_value(args[i + 1]@) as u64, offline, r)
                } else {
                    r is BadInterval
                }
            } else {
                r is MissingIntervalValue
            }
        } else if a == "-off"@ || a == "--offline"@ {
            outcome_ok(args, i + 1, interval_ms, true, r)
        } else {
            outcome_ok(args, i + 1, interval_ms, offline, r)
        }
    }
}

impl ArgParser {
    /// Scans the launch parameters. The default is a one-second interval
    /// with sending enabled.
    pub fn new(args: &Vec<String>) -> (r: ArgOutcome)
        ensures
            outcome_ok(args@, 0, 1000, false, r),
    {
        let mut interval_ms: u64 = 1000;
        let mut offline: bool = false;
        let n = args.len();
        let mut i: usize = 0;
        while i < n
            invariant
                n == args@.len(),
                0 <= i <= n,
                forall|r2: ArgOutcome|
                    outcome_ok(args@, i as int, interval_ms, offline, r2) ==> outcome_ok(
                        args@,
                        0,
                        1000,
                        false,
                        r2,
                    ),
            decreases n - i,
        {
            let a = args[i].as_str();
            if str_eq(a, "-h") || str_eq(a, "--help") {
                return ArgOutcome::Help;
            } else if str_eq(a, "-v") || str_eq(a, "--version") {
                return ArgOutcome::Version;
            } else if str_eq(a, "-su") || str_eq(a, "--signup") {
                if i + 1 < n {
                    let key = crate::network::copy_string(&args[i + 1]);
                    return ArgOutcome::Signup { key };
                } else {
                    return ArgOutcome::MissingSignupKey;
                }
            } else if str_eq(a, "-i") || str_eq(a, "--interval") {
                if i + 1 < n {
                    match parse_milli(args[i + 1].as_str()) {
                        Some(v) => {
                            interval_ms = v;
                            i += 2;
                        },
                        None => {
                            return ArgOutcome::BadInterval;
                        },
                    }
                } else {
                    return ArgOutcome::MissingIntervalValue;
                }
            } else if str_eq(a, "-off") || str_eq(a, "--offline") {
                offline = true;
                i += 1;
            } else {
                i += 1;
            }
        }
        ArgOutcome::Run { parser: ArgParser { interval_ms, offline } }
    }
}

} // verus!
