use os_crypt::cli::{parse_args, Command, Options, UsageError, ValueOption};

fn args(list: &[&str]) -> Vec<String> {
    list.iter().map(|s| s.to_string()).collect()
}

fn run(config_path: Option<&str>, encrypted_key: Option<&str>, print_key: bool) -> Command {
    Command::Run(Options {
        config_path: config_path.map(str::to_string),
        encrypted_key: encrypted_key.map(str::to_string),
        print_key,
    })
}

#[test]
fn no_arguments() {
    assert_eq!(parse_args(&args(&["prog"])), Ok(run(None, None, false)));
    assert_eq!(parse_args(&args(&[])), Ok(run(None, None, false)));
}

#[test]
fn first_argument_is_the_program() {
    assert_eq!(parse_args(&args(&["--help"])), Ok(run(None, None, false)));
    assert_eq!(parse_args(&args(&["--bogus"])), Ok(run(None, None, false)));
}

#[test]
fn help_and_version() {
    assert_eq!(parse_args(&args(&["prog", "-h"])), Ok(Command::Help));
    assert_eq!(parse_args(&args(&["prog", "--help"])), Ok(Command::Help));
    assert_eq!(parse_args(&args(&["prog", "--version"])), Ok(Command::Version));
    assert_eq!(parse_args(&args(&["prog", "-p", "--help", "--bogus"])), Ok(Command::Help));
    assert_eq!(parse_args(&args(&["prog", "--version", "-h"])), Ok(Command::Version));
    assert_eq!(parse_args(&args(&["prog", "-h", "-c"])), Ok(Command::Help));
}

#[test]
fn options_with_values() {
    assert_eq!(
        parse_args(&args(&["prog", "-c", "/tmp/config.json"])),
        Ok(run(Some("/tmp/config.json"), None, false))
    );
    assert_eq!(
        parse_args(&args(&["prog", "--config", "a.json", "--key", "763130"])),
        Ok(run(Some("a.json"), Some("763130"), false))
    );
    assert_eq!(
        parse_args(&args(&["prog", "-k", "763130", "-p"])),
        Ok(run(None, Some("763130"), true))
    );
    assert_eq!(parse_args(&args(&["prog", "--print-key"])), Ok(run(None, None, true)));
}

#[test]
fn a_value_is_taken_as_it_stands() {
    assert_eq!(parse_args(&args(&["prog", "-c", "-h"])), Ok(run(Some("-h"), None, false)));
    assert_eq!(parse_args(&args(&["prog", "-k", "--bogus"])), Ok(run(None, Some("--bogus"), false)));
}

#[test]
fn a_later_value_replaces_an_earlier_one() {
    assert_eq!(
        parse_args(&args(&["prog", "-c", "a.json", "--config", "b.json", "-k", "1", "-k", "2"])),
        Ok(run(Some("b.json"), Some("2"), false))
    );
}

#[test]
fn missing_values() {
    assert_eq!(
        parse_args(&args(&["prog", "-c"])),
        Err(UsageError::MissingValue(ValueOption::Config))
    );
    assert_eq!(
        parse_args(&args(&["prog", "-p", "--config"])),
        Err(UsageError::MissingValue(ValueOption::Config))
    );
    assert_eq!(parse_args(&args(&["prog", "-k"])), Err(UsageError::MissingValue(ValueOption::Key)));
    assert_eq!(
        parse_args(&args(&["prog", "-c", "a.json", "--key"])),
        Err(UsageError::MissingValue(ValueOption::Key))
    );
}

#[test]
fn unknown_options() {
    assert_eq!(
        parse_args(&args(&["prog", "--bogus"])),
        Err(UsageError::UnknownOption("--bogus".to_string()))
    );
    assert_eq!(
        parse_args(&args(&["prog", "-p", "file.json", "-h"])),
        Err(UsageError::UnknownOption("file.json".to_string()))
    );
    assert_eq!(parse_args(&args(&["prog", ""])), Err(UsageError::UnknownOption(String::new())));
    assert_eq!(
        parse_args(&args(&["prog", "-H"])),
        Err(UsageError::UnknownOption("-H".to_string()))
    );
}

#[test]
fn usage_error_messages() {
    assert_eq!(
        UsageError::MissingValue(ValueOption::Config).message(),
        "Option '-c' requires an argument."
    );
    assert_eq!(
        UsageError::MissingValue(ValueOption::Key).message(),
        "Option '-k' requires an argument."
    );
    assert_eq!(
        UsageError::UnknownOption("--bogus".to_string()).message(),
        "Unknown option: --bogus"
    );
}
