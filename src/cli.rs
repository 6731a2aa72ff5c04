use vstd::prelude::*;

use crate::text::same_text;

verus! {

/// What the agent was asked to do.
#[derive(Clone, Copy, Debug, PartialEq, Eq, Structural)]
pub enum Subcommand {
    /// Poll on a timer and keep the status notification up to date.
    Watch,
    /// Poll once and show the status.
    Info,
    /// Reboot the router.
    Reboot,
    /// Power the router off.
    Off,
    /// Print the usage text.
    Help,
    /// Anything else: print the usage text and fail.
    Unknown,
}

/// The parsed command line.
#[derive(Clone, Copy, Debug, PartialEq, Eq, Structural)]
pub struct Cli {
    pub command: Subcommand,
    pub verbose: bool,
}

pub open spec fn is_verbose_flag(arg: Seq<char>) -> bool {
    arg == "--verbose"@ || arg == "-v"@
}

/// The arguments without the verbosity flags, in their order.
pub open spec fn without_verbose(args: Seq<String>) -> Seq<String>
    decreases args.len(),
{
    if args.len() == 0 {
        Seq::empty()
    } else {
        let rest = without_verbose(args.drop_last());
        if is_verbose_flag(args.last()@) {
            rest
        } else {
            rest.push(args.last())
        }
    }
}

pub open spec fn has_verbose(args: Seq<String>) -> bool {
    exists|i: int| 0 <= i < args.len() && is_verbose_flag(#[trigger] args[i]@)
}

/// The subcommand that an argument names.
pub open spec fn subcommand_for(arg: Seq<char>) -> Subcommand {
    if arg == "watch"@ {
        Subcommand::Watch
    } else if arg == "info"@ {
        Subcommand::Info
    } else if arg == "reboot"@ {
        Subcommand::Reboot
    } else if arg == "off"@ {
        Subcommand::Off
    } else if arg == "help"@ || arg == "--help"@ || arg == "-h"@ {
        Subcommand::Help
    } else {
        Subcommand::Unknown
    }
}

/// The command line that `args` (without the program name) spell: the
/// first argument that is not a verbosity flag names the subcommand,
/// `watch` when there is none.
pub open spec fn cli_of(args: Seq<String>) -> Cli {
    let rest = without_verbose(args);
    Cli {
        command: if rest.len() == 0 {
            Subcommand::Watch
        } else {
            subcommand_for(rest[0]@)
        },
        verbose: has_verbose(args),
    }
}

fn is_verbose_arg(arg: &str) -> (r: bool)
    ensures
        r == is_verbose_flag(arg@),
{
    same_text(arg, "--verbose") || same_text(arg, "-v")
}

fn subcommand(arg: &str) -> (r: Subcommand)
    ensures
        r == subcommand_for(arg@),
{
    if same_text(arg, "watch") {
        Subcommand::Watch
    } else if same_text(arg, "info") {
        Subcommand::Info
    } else if same_text(arg, "reboot") {
        Subcommand::Reboot
    } else if same_text(arg, "off") {
        Subcommand::Off
    } else if same_text(arg, "help") || same_text(arg, "--help") || same_text(arg, "-h") {
        Subcommand::Help
    } else {
        Subcommand::Unknown
    }
}

/// Removes every `--verbose` and `-v` from `args`, keeping the order of the
/// rest, and returns whether there was one.
pub fn extract_verbose_option(args: &mut Vec<String>) -> (r: bool)
    ensures
        final(args)@ == without_verbose(old(args)@),
        r == has_verbose(old(args)@),
{
    let ghost all = args@;
    let mut kept: Vec<String> = Vec::new();
    let mut found = false;
    let mut i: usize = 0;
    while i < args.len()
        invariant
            args@ == all,
            i <= all.len(),
            kept@ == without_verbose(all.subrange(0, i as int)),
            found == has_verbose(all.subrange(0, i as int)),
        decreases all.len() - i,
    {
        let ghost prefix = all.subrange(0, i + 1);
        assert(prefix.drop_last() =~= all.subrange(0, i as int));
        assert(prefix.last() == all[i as int]);
        if is_verbose_arg(args[i].as_str()) {
            assert(is_verbose_flag(prefix[i as int]@));
            found = true;
        } else {
            kept.push(args[i].clone());
            assert(has_verbose(prefix) ==> has_verbose(all.subrange(0, i as int))) by {
                if has_verbose(prefix) {
                    let k = choose|k: int| 0 <= k < prefix.len() && is_verbose_flag(#[trigger] prefix[k]@);
                    assert(all.subrange(0, i as int)[k] == prefix[k]);
                }
            }
        }
        proof {
            if has_verbose(all.subrange(0, i as int)) {
                let k = choose|k: int|
                    0 <= k < i && is_verbose_flag(#[trigger] all.subrange(0, i as int)[k]@);
                assert(prefix[k] == all.subrange(0, i as int)[k]);
            }
        }
        i += 1;
    }
    assert(all.subrange(0, all.len() as int) =~= all);
    *args = kept;
    found
}

impl Cli {
    /// Reads the command line from the arguments after the program name.
    pub fn parse(args: Vec<String>) -> (r: Cli)
        ensures
            r == cli_of(args@),
    {
        let mut args = args;
        let verbose = extract_verbose_option(&mut args);
        let command = if args.len() == 0 {
            Subcommand::Watch
        } else {
            subcommand(args[0].as_str())
        };
        Cli { command, verbose }
    }

    /// Whether diagnostics were asked for.
    pub fn verbose(&self) -> (r: bool)
        ensures
            r == self.verbose,
    {
        self.verbose
    }
}

} // verus!
