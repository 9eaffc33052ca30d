use tsfmt::args::{parse_args, Command, Invocation, UsageError};
use tsfmt::report::{usage_text, Failure};

fn strings(items: &[&str]) -> Vec<String> {
    items.iter().map(|s| s.to_string()).collect()
}

fn run(config_file: Option<&str>, code: Option<&str>) -> Result<Command, UsageError> {
    Ok(Command::Run(Invocation {
        config_file: config_file.map(|s| s.to_string()),
        code: code.map(|s| s.to_string()),
    }))
}

#[test]
fn no_arguments_reads_stdin_without_config() {
    assert_eq!(parse_args(&strings(&[])), run(None, None));
}

#[test]
fn single_code_argument_is_kept_verbatim() {
    let code = "if(x)console.log(\"hi\");";
    assert_eq!(parse_args(&strings(&[code])), run(None, Some(code)));
}

#[test]
fn help_wins_anywhere() {
    assert_eq!(parse_args(&strings(&["--help"])), Ok(Command::Help));
    assert_eq!(parse_args(&strings(&["-h"])), Ok(Command::Help));
    assert_eq!(parse_args(&strings(&["code", "-c", "cfg.json", "--help"])), Ok(Command::Help));
    assert_eq!(parse_args(&strings(&["--bogus", "--help"])), Ok(Command::Help));
    assert_eq!(parse_args(&strings(&["-h", "--config-file"])), Ok(Command::Help));
}

#[test]
fn config_flag_without_path_is_refused() {
    assert_eq!(parse_args(&strings(&["--config-file"])), Err(UsageError::MissingPath));
    assert_eq!(parse_args(&strings(&["code", "-c"])), Err(UsageError::MissingPath));
    let f = Failure::Usage(UsageError::MissingPath);
    assert_eq!(f.message(), "Error: --config-file requires a path argument");
    assert!(!f.shows_usage());
}

#[test]
fn config_path_forms() {
    assert_eq!(parse_args(&strings(&["--config-file", "a.json"])), run(Some("a.json"), None));
    assert_eq!(parse_args(&strings(&["-c", "b.json", "x"])), run(Some("b.json"), Some("x")));
    assert_eq!(parse_args(&strings(&["--config-file=c.json"])), run(Some("c.json"), None));
    assert_eq!(parse_args(&strings(&["--config-file="])), run(Some(""), None));
    assert_eq!(parse_args(&strings(&["-c", "--odd"])), run(Some("--odd"), None));
}

#[test]
fn last_code_argument_wins() {
    assert_eq!(parse_args(&strings(&["a", "b", "c"])), run(None, Some("c")));
    assert_eq!(parse_args(&strings(&["-x"])), run(None, Some("-x")));
}

#[test]
fn unknown_flag_is_refused() {
    let r = parse_args(&strings(&["code", "--bogus", "more"]));
    assert_eq!(r, Err(UsageError::Unknown("--bogus".to_string())));
    let f = Failure::Usage(UsageError::Unknown("--bogus".to_string()));
    assert_eq!(f.message(), "Unknown argument: --bogus");
    assert!(f.shows_usage());
    assert_eq!(parse_args(&strings(&["--config"])), Err(UsageError::Unknown("--config".to_string())));
}

#[test]
fn usage_names_the_program() {
    let text = usage_text("tsfmt");
    assert!(text.starts_with("Usage: tsfmt [OPTIONS] [<code>]\n\n"));
    assert!(text.contains("  -c, --config-file <PATH>    Load configuration from dprint.json file\n"));
    assert!(text.contains("  tsfmt 'if(x)console.log(\"hi\");'\n"));
    assert!(text.ends_with("  tsfmt --config-file dprint.json < input.js > output.js\n"));
    assert_eq!(text.lines().count(), 12);
}

#[test]
fn failure_messages() {
    assert_eq!(
        Failure::ReadInput("stream did not contain valid UTF-8".to_string()).message(),
        "Error reading from stdin: stream did not contain valid UTF-8"
    );
    assert_eq!(
        Failure::LoadConfig("cfg.json".to_string(), "boom".to_string()).message(),
        "Error loading config file 'cfg.json': boom"
    );
    assert_eq!(Failure::Format("bad".to_string()).message(), "Error formatting code: bad");
}
