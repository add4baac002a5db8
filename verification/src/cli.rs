//! The command line: what a list of arguments asks for.

use vstd::prelude::*;

verus! {

/// What a run is to do, as far as the arguments say.
#[derive(Debug, PartialEq, Eq)]
pub struct Options {
    /// Path of the configuration file, where one was given.
    pub config_path: Option<String>,
    /// The encrypted key itself, where one was given.
    pub encrypted_key: Option<String>,
    /// Whether to print the password that the secure storage gave.
    pub print_key: bool,
}

/// What the arguments ask for.
#[derive(Debug, PartialEq, Eq)]
pub enum Command {
    /// Show the help text and do nothing else.
    Help,
    /// Show the version and do nothing else.
    Version,
    /// Decrypt, with these options.
    Run(Options),
}

/// An option that takes a value.
#[derive(Clone, Copy, Debug, PartialEq, Eq, Structural)]
pub enum ValueOption {
    /// `-c` or `--config`: the path of the configuration file.
    Config,
    /// `-k` or `--key`: the encrypted key.
    Key,
}

/// Why a list of arguments asks for nothing.
#[derive(Debug, PartialEq, Eq)]
pub enum UsageError {
    /// The last argument is an option that takes a value.
    MissingValue(ValueOption),
    /// An argument is no option of the program.
    UnknownOption(String),
}

impl UsageError {
    /// What the error says, in words.
    pub open spec fn message_text(self) -> Seq<char> {
        match self {
            UsageError::MissingValue(ValueOption::Config) => "Option '-c' requires an argument."@,
            UsageError::MissingValue(ValueOption::Key) => "Option '-k' requires an argument."@,
            UsageError::UnknownOption(arg) => "Unknown option: "@ + arg@,
        }
    }

    /// A message for the user.
    pub fn message(&self) -> (text: String)
        ensures
            text@ == self.message_text(),
    {
        match self {
            UsageError::MissingValue(ValueOption::Config) => String::from_str(
                "Option '-c' requires an argument.",
            ),
            UsageError::MissingValue(ValueOption::Key) => String::from_str(
                "Option '-k' requires an argument.",
            ),
            UsageError::UnknownOption(arg) => String::from_str("Unknown option: ").concat(
                arg.as_str(),
            ),
        }
    }
}

/// The options of a run before any argument is read.
pub open spec fn no_options() -> Options {
    Options { config_path: None, encrypted_key: None, print_key: false }
}

/// What the arguments from position `at` on ask for, with `options`
/// gathered so far. Arguments are read from left to right: a help or
/// version option ends the reading whatever follows it, an option that
/// takes a value takes the next argument whatever it is, and a later value
/// replaces an earlier one.
pub open spec fn parsed_from(args: Seq<String>, at: int, options: Options) -> Result<
    Command,
    UsageError,
>
    decreases args.len() - at,
{
    if at < 0 || at >= args.len() {
        Ok(Command::Run(options))
    } else if args[at]@ == "-h"@ || args[at]@ == "--help"@ {
        Ok(Command::Help)
    } else if args[at]@ == "--version"@ {
        Ok(Command::Version)
    } else if args[at]@ == "-c"@ || args[at]@ == "--config"@ {
        if at + 1 < args.len() {
            parsed_from(
                args,
                at + 2,
                Options { config_path: Some(args[at + 1]), ..options },
            )
        } else {
            Err(UsageError::MissingValue(ValueOption::Config))
        }
    } else if args[at]@ == "-k"@ || args[at]@ == "--key"@ {
        if at + 1 < args.len() {
            parsed_from(
                args,
                at + 2,
                Options { encrypted_key: Some(args[at + 1]), ..options },
            )
        } else {
            Err(UsageError::MissingValue(ValueOption::Key))
        }
    } else if args[at]@ == "-p"@ || args[at]@ == "--print-key"@ {
        parsed_from(args, at + 1, Options { print_key: true, ..options })
    } else {
        Err(UsageError::UnknownOption(args[at]))
    }
}

/// Whether `arg` is the option written `name`.
fn is_option(arg: &String, name: &str) -> (r: bool)
    ensures
        r == (arg@ == name@),
{
    let wanted = String::from_str(name);
    *arg == wanted
}

/// Reads the arguments of the program, the first of which is its own name.
pub fn parse_args(args: &Vec<String>) -> (r: Result<Command, UsageError>)
    ensures
        r == parsed_from(args@, 1, no_options()),
{
    let mut options = Options { config_path: None, encrypted_key: None, print_key: false };
    let mut i: usize = 1;
    while i < args.len()
        invariant
            1 <= i,
            parsed_from(args@, 1, no_options()) == parsed_from(args@, i as int, options),
        decreases args.len() - i,
    {
        let arg = &args[i];
        if is_option(arg, "-h") || is_option(arg, "--help") {
            return Ok(Command::Help);
        } else if is_option(arg, "--version") {
            return Ok(Command::Version);
        } else if is_option(arg, "-c") || is_option(arg, "--config") {
            if i + 1 < args.len() {
                options.config_path = Some(args[i + 1].clone());
                i += 1;
            } else {
                return Err(UsageError::MissingValue(ValueOption::Config));
            }
        } else if is_option(arg, "-k") || is_option(arg, "--key") {
            if i + 1 < args.len() {
                options.encrypted_key = Some(args[i + 1].clone());
                i += 1;
            } else {
                return Err(UsageError::MissingValue(ValueOption::Key));
            }
        } else if is_option(arg, "-p") || is_option(arg, "--print-key") {
            options.print_key = true;
        } else {
            return Err(UsageError::UnknownOption(arg.clone()));
        }
        i += 1;
    }
    Ok(Command::Run(options))
}

} // verus!
