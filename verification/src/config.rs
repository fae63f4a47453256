//! What the program is asked to do, taken from its command line.

use vstd::prelude::*;

verus! {

/// The configuration of a run: the path of the binary to decode.
pub struct Config {
    pub binary_path: String,
}

impl Config {
    /// Builds the configuration from the command line: the program's own name
    /// followed by exactly one argument, the path of the binary.
    pub fn build(args: &[String]) -> (r: Result<Self, &'static str>)
        ensures
            match r {
                Ok(config) => args@.len() == 2 && config.binary_path@ == args@[1]@,
                Err(message) => if args@.len() > 2 {
                    message@ == "Too many params"@
                } else {
                    args@.len() < 2 && message@ == "Not enough params"@
                },
            },
    {
        if args.len() > 2 {
            return Err("Too many params");
        }
        if args.len() < 2 {
            return Err("Not enough params");
        }
        let binary_path = args[1].clone();
        Ok(Self { binary_path })
    }
}

} // verus!
