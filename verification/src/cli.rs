//! What the command line asks for.
//!
//! The arguments are those after the program's name. An argument that holds
//! one of the letters `v`, `d` and `p` is a flag: it sets all three display
//! options, by the letters it holds, so the last flag decides. Any other
//! argument is ignored and leaves the options as they are. An argument that
//! is a help flag asks for the usage text instead.

use crate::text::{chars_of, contains_char, same_text};
use vstd::prelude::*;

verus! {

/// Which parts of the listing to show.
#[derive(PartialEq, Eq, Debug, Clone, Copy, Structural)]
pub struct CliOptions {
    pub print_versions: bool,
    pub print_descs: bool,
    pub print_paths: bool,
}

impl CliOptions {
    /// The three flags in the order versions, descriptions, paths.
    pub fn unpack(&self) -> (out: (bool, bool, bool))
        ensures
            out == (self.print_versions, self.print_descs, self.print_paths),
    {
        (self.print_versions, self.print_descs, self.print_paths)
    }
}

/// What to do: show the usage text, or list with the given options.
#[derive(PartialEq, Eq, Debug, Clone, Copy, Structural)]
pub enum Command {
    Help,
    Run(CliOptions),
}

/// The texts of a list of arguments.
pub open spec fn arg_texts(args: Seq<&str>) -> Seq<Seq<char>> {
    args.map_values(|a: &str| a@)
}

/// Whether `arg` is a help flag.
pub open spec fn is_help(arg: Seq<char>) -> bool {
    arg == "-h"@ || arg == "--help"@
}

/// Whether any of `args` is a help flag.
pub open spec fn wants_help(args: Seq<Seq<char>>) -> bool {
    exists|i: int| 0 <= i < args.len() && is_help(#[trigger] args[i])
}

/// The flags that one argument sets: versions for a `v`, descriptions for a
/// `d`, paths for a `p`, anywhere in it.
pub open spec fn flags_of(arg: Seq<char>) -> CliOptions {
    CliOptions {
        print_versions: arg.contains('v'),
        print_descs: arg.contains('d'),
        print_paths: arg.contains('p'),
    }
}

/// Whether `arg` is a flag: whether it holds one of the letters.
pub open spec fn holds_flag(arg: Seq<char>) -> bool {
    arg.contains('v') || arg.contains('d') || arg.contains('p')
}

/// The options that `args` select: what the last flag among them sets, and
/// none where no argument is a flag. Arguments that are no flags are
/// ignored, wherever they stand.
pub open spec fn options_of(args: Seq<Seq<char>>) -> CliOptions
    decreases args.len(),
{
    if args.len() == 0 {
        CliOptions { print_versions: false, print_descs: false, print_paths: false }
    } else if holds_flag(args.last()) {
        flags_of(args.last())
    } else {
        options_of(args.drop_last())
    }
}

/// An argument that is no flag changes nothing, whatever stands before it.
pub proof fn lemma_other_argument_is_ignored(args: Seq<Seq<char>>, arg: Seq<char>)
    requires
        !holds_flag(arg),
    ensures
        options_of(args.push(arg)) == options_of(args),
{
    assert(args.push(arg).drop_last() =~= args);
}

/// A flag decides alone, whatever stands before it.
pub proof fn lemma_last_flag_decides(args: Seq<Seq<char>>, arg: Seq<char>)
    requires
        holds_flag(arg),
    ensures
        options_of(args.push(arg)) == flags_of(arg),
{
}

/// An option is on only where some argument holds its letter.
pub proof fn lemma_option_needs_its_letter(args: Seq<Seq<char>>)
    ensures
        options_of(args).print_versions ==> exists|i: int|
            0 <= i < args.len() && (#[trigger] args[i]).contains('v'),
        options_of(args).print_descs ==> exists|i: int|
            0 <= i < args.len() && (#[trigger] args[i]).contains('d'),
        options_of(args).print_paths ==> exists|i: int|
            0 <= i < args.len() && (#[trigger] args[i]).contains('p'),
    decreases args.len(),
{
    if args.len() > 0 && !holds_flag(args.last()) {
        let before = args.drop_last();
        lemma_option_needs_its_letter(before);
        if options_of(args).print_versions {
            let i = choose|i: int| 0 <= i < before.len() && (#[trigger] before[i]).contains('v');
            assert(args[i].contains('v'));
        }
        if options_of(args).print_descs {
            let i = choose|i: int| 0 <= i < before.len() && (#[trigger] before[i]).contains('d');
            assert(args[i].contains('d'));
        }
        if options_of(args).print_paths {
            let i = choose|i: int| 0 <= i < before.len() && (#[trigger] before[i]).contains('p');
            assert(args[i].contains('p'));
        }
    } else if args.len() > 0 {
        assert(args[args.len() - 1] == args.last());
    }
}

/// The command that `args` give.
pub open spec fn command_of(args: Seq<Seq<char>>) -> Command {
    if wants_help(args) {
        Command::Help
    } else {
        Command::Run(options_of(args))
    }
}

/// Whether `arg` is a help flag.
pub fn is_help_flag(arg: &str) -> (out: bool)
    ensures
        out == is_help(arg@),
{
    let chars = chars_of(arg);
    let short = chars_of("-h");
    let long = chars_of("--help");
    same_text(chars.as_slice(), short.as_slice()) || same_text(chars.as_slice(), long.as_slice())
}

/// Whether any of `args` is a help flag.
pub fn help_requested(args: &[&str]) -> (out: bool)
    ensures
        out == wants_help(arg_texts(args@)),
{
    let mut i: usize = 0;
    while i < args.len()
        invariant
            i <= args.len(),
            forall|k: int| 0 <= k < i ==> !is_help(#[trigger] arg_texts(args@)[k]),
        decreases args.len() - i,
    {
        if is_help_flag(args[i]) {
            assert(is_help(arg_texts(args@)[i as int]));
            return true;
        }
        i += 1;
    }
    false
}

/// The display options that `args` select: the last argument that holds
/// one of the letters decides, by the letters it holds. An argument that
/// holds none of them is ignored: it is not turned down, and it undoes
/// nothing that an argument before it selected.
///
/// A help flag among the arguments asks for something else than options:
/// `parse_command` tells the two apart.
pub fn parse_args(args: &[&str]) -> (out: CliOptions)
    requires
        !wants_help(arg_texts(args@)),
    ensures
        out == options_of(arg_texts(args@)),
{
    let mut op = CliOptions { print_descs: false, print_versions: false, print_paths: false };
    let mut i: usize = 0;
    while i < args.len()
        invariant
            i <= args.len(),
            op == options_of(arg_texts(args@).take(i as int)),
        decreases args.len() - i,
    {
        let chars = chars_of(args[i]);
        let descs = contains_char(chars.as_slice(), 'd');
        let versions = contains_char(chars.as_slice(), 'v');
        let paths = contains_char(chars.as_slice(), 'p');
        if descs || versions || paths {
            op = CliOptions { print_descs: descs, print_versions: versions, print_paths: paths };
        }
        proof {
            assert(arg_texts(args@).take(i + 1).last() == args[i as int]@);
            assert(arg_texts(args@).take(i + 1).drop_last() =~= arg_texts(args@).take(i as int));
        }
        i += 1;
    }
    assert(arg_texts(args@).take(i as int) =~= arg_texts(args@));
    op
}

/// The command that `args` give: help where any argument is a help flag,
/// and otherwise a run with the options that the arguments select.
pub fn parse_command(args: &[&str]) -> (out: Command)
    ensures
        out == command_of(arg_texts(args@)),
{
    if help_requested(args) {
        Command::Help
    } else {
        Command::Run(parse_args(args))
    }
}

} // verus!
