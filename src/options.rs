//! The options of the patch command, decided from its first argument.
use vstd::prelude::*;

verus! {

/// What the command is asked to do.
#[derive(PartialEq, Eq, Structural, Clone, Copy, Debug)]
pub struct Options {
    /// List the proposals instead of creating one.
    pub list: bool,
    /// Show the output of the pushes.
    pub verbose: bool,
    /// Sync the branch to the seed after creating a proposal.
    pub sync: bool,
}

impl Default for Options {
    fn default() -> (r: Options)
        ensures
            r == (Options { list: false, verbose: false, sync: false }),
    {
        Options { list: false, verbose: false, sync: false }
    }
}

/// A command-line argument, as split by the argument parser.
#[derive(Clone, Debug)]
pub enum ArgToken {
    /// `--name`
    Long(String),
    /// `-c`
    Short(char),
    /// A free-standing value.
    Value(String),
}

/// Why the arguments give no options.
#[derive(PartialEq, Eq, Structural, Clone, Copy, Debug)]
pub enum ArgsError {
    /// Help was asked for.
    Help,
    /// The argument is not one the command knows.
    Unexpected,
}

pub open spec fn is_long(t: ArgToken, name: Seq<char>) -> bool {
    t matches ArgToken::Long(s) && s@ == name
}

pub open spec fn is_short(t: ArgToken, c: char) -> bool {
    t matches ArgToken::Short(d) && d == c
}

/// The options that the first argument gives: with none, no listing, no
/// verbosity, and syncing.
pub open spec fn options_from(args: Seq<ArgToken>) -> Result<Options, ArgsError> {
    let base = Options { list: false, verbose: false, sync: true };
    if args.len() == 0 {
        Ok(base)
    } else {
        let t = args[0];
        if is_long(t, "list"@) || is_short(t, 'l') {
            Ok(Options { list: true, ..base })
        } else if is_long(t, "verbose"@) || is_short(t, 'v') {
            Ok(Options { verbose: true, ..base })
        } else if is_long(t, "sync"@) {
            Ok(base)
        } else if is_long(t, "no-sync"@) {
            Ok(Options { sync: false, ..base })
        } else if is_long(t, "help"@) {
            Err(ArgsError::Help)
        } else {
            Err(ArgsError::Unexpected)
        }
    }
}

fn long_is(s: &String, name: &str) -> (r: bool)
    ensures
        r == (s@ == name@),
{
    *s == String::from_str(name)
}

impl Options {
    /// Decides the options from the arguments; only the first is read.
    pub fn from_args(args: &Vec<ArgToken>) -> (r: Result<Options, ArgsError>)
        ensures
            r == options_from(args@),
    {
        let base = Options { list: false, verbose: false, sync: true };
        if args.len() == 0 {
            return Ok(base);
        }
        match &args[0] {
            ArgToken::Long(s) => {
                if long_is(s, "list") {
                    Ok(Options { list: true, ..base })
                } else if long_is(s, "verbose") {
                    Ok(Options { verbose: true, ..base })
                } else if long_is(s, "sync") {
                    Ok(base)
                } else if long_is(s, "no-sync") {
                    Ok(Options { sync: false, ..base })
                } else if long_is(s, "help") {
                    Err(ArgsError::Help)
                } else {
                    Err(ArgsError::Unexpected)
                }
            },
            ArgToken::Short(c) => {
                if *c == 'l' {
                    Ok(Options { list: true, ..base })
                } else if *c == 'v' {
                    Ok(Options { verbose: true, ..base })
                } else {
                    Err(ArgsError::Unexpected)
                }
            },
            ArgToken::Value(_) => Err(ArgsError::Unexpected),
        }
    }
}

} // verus!
