//! The command-line flags: which ones were given, in order. A run that was
//! given any of them performs them and stops there.

use vstd::prelude::*;
use crate::text::views;

verus! {

/// What a recognized flag asks for.
#[derive(Clone, Copy, Debug, PartialEq, Eq, Structural)]
pub enum CliAction {
    /// `--help` or `-h`.
    ShowUsage,
    /// `--version` or `-v`.
    ShowVersion,
    /// `--copy-default-config`.
    CopyDefaultConfig,
}

/// The action of one argument, if it is a recognized flag.
pub open spec fn action_of(arg: Seq<char>) -> Option<CliAction> {
    if arg == "--help"@ || arg == "-h"@ {
        Some(CliAction::ShowUsage)
    } else if arg == "--version"@ || arg == "-v"@ {
        Some(CliAction::ShowVersion)
    } else if arg == "--copy-default-config"@ {
        Some(CliAction::CopyDefaultConfig)
    } else {
        None
    }
}

/// The actions of the recognized flags among `args`, in their order.
pub open spec fn actions_of(args: Seq<Seq<char>>) -> Seq<CliAction>
    decreases args.len(),
{
    if args.len() == 0 {
        Seq::empty()
    } else {
        let prev = actions_of(args.drop_last());
        match action_of(args.last()) {
            Some(a) => prev.push(a),
            None => prev,
        }
    }
}

fn is_text(arg: &String, text: &str) -> (r: bool)
    ensures
        r == (arg@ == text@),
{
    let t = text.to_string();
    *arg == t
}

/// The action of one argument, if it is a recognized flag.
pub fn classify_argument(arg: &String) -> (r: Option<CliAction>)
    ensures
        r == action_of(arg@),
{
    if is_text(arg, "--help") || is_text(arg, "-h") {
        Some(CliAction::ShowUsage)
    } else if is_text(arg, "--version") || is_text(arg, "-v") {
        Some(CliAction::ShowVersion)
    } else if is_text(arg, "--copy-default-config") {
        Some(CliAction::CopyDefaultConfig)
    } else {
        None
    }
}

/// The actions asked for by the arguments, in order; other arguments are
/// ignored. The run stops after them when there is at least one.
pub fn handle_arguments(args: &Vec<String>) -> (r: Vec<CliAction>)
    ensures
        r@ == actions_of(views(args@)),
{
    let ghost av = views(args@);
    let mut out: Vec<CliAction> = Vec::new();
    let mut i: usize = 0;
    while i < args.len()
        invariant
            i <= args@.len(),
            av == views(args@),
            out@ == actions_of(av.subrange(0, i as int)),
        decreases args@.len() - i,
    {
        proof {
            assert(av.subrange(0, i + 1).drop_last() =~= av.subrange(0, i as int));
            assert(av.subrange(0, i + 1).last() == args@[i as int]@);
        }
        match classify_argument(&args[i]) {
            Some(a) => out.push(a),
            None => {},
        }
        i = i + 1;
    }
    assert(av.subrange(0, args@.len() as int) =~= av);
    out
}

} // verus!
