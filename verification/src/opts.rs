//! Command-line switches. The host collects the process arguments; deciding
//! what they mean happens here.

use crate::text::{chars_eq_str, chars_of};
use vstd::prelude::*;

verus! {

/// What the process was asked to do.
#[derive(Debug)]
pub enum Flags {
    Filename(String),
    Stdin,
    Help,
    Version,
}

impl Flags {
    /// Classify the process arguments: with no argument the document comes
    /// from standard input; `-h`/`--help` and `-v`/`--version` are switches;
    /// anything else names the document file.
    pub fn from_args(args: &Vec<String>) -> (r: Flags)
        ensures
            args@.len() < 2 ==> r is Stdin,
            args@.len() >= 2 ==> {
                let a = args.deep_view()[1];
                if a == "-h"@ || a == "--help"@ {
                    r is Help
                } else if a == "-v"@ || a == "--version"@ {
                    r is Version
                } else {
                    r matches Flags::Filename(f) && f@ == a
                }
            },
    {
        if args.len() < 2 {
            return Flags::Stdin;
        }
        let a = &args[1];
        proof {
            assert(a@ == args.deep_view()[1]);
        }
        let ac = chars_of(a.as_str());
        if chars_eq_str(&ac, "-h") || chars_eq_str(&ac, "--help") {
            Flags::Help
        } else if chars_eq_str(&ac, "-v") || chars_eq_str(&ac, "--version") {
            Flags::Version
        } else {
            Flags::Filename(a.clone())
        }
    }
}

} // verus!
