//! How the control utility is started.

use vstd::prelude::*;

verus! {

/// The arguments that set the utility's verbosity. With trace-level
/// diagnostics the utility runs with its own defaults and prints everything;
/// without them it is held to level 1 by `-d 1`.
pub open spec fn verbosity_args(trace: bool) -> Seq<Seq<char>> {
    if trace {
        Seq::empty()
    } else {
        seq!["-d"@, "1"@]
    }
}

/// The program that is started as the utility, and its arguments.
#[derive(Debug)]
pub struct LaunchConfig {
    pub program: String,
    pub args: Vec<String>,
}

impl LaunchConfig {
    /// Starts `program` in place of the utility, a stand-in for instance,
    /// with the arguments that the utility would get.
    pub fn new(program: &str, trace: bool) -> (config: Self)
        ensures
            config.program@ == program@,
            config.args.deep_view() == verbosity_args(trace),
    {
        let mut args: Vec<String> = Vec::new();
        if !trace {
            args.push("-d".to_owned());
            args.push("1".to_owned());
        }
        assert(args.deep_view() =~= verbosity_args(trace));
        LaunchConfig { program: program.to_owned(), args }
    }

    /// Starts `cec-client`, the utility itself.
    pub fn cec_client(trace: bool) -> (config: Self)
        ensures
            config.program@ == "cec-client"@,
            config.args.deep_view() == verbosity_args(trace),
    {
        LaunchConfig::new("cec-client", trace)
    }
}

} // verus!
