use docindexer::cli::{Cli, CliError};

fn parse(args: Vec<&str>) -> Result<Cli, CliError> {
    let matches = Cli::command().try_get_matches_from(args).expect("arguments fit the grammar");
    Cli::from_matches(&matches)
}

#[test]
fn test_input_dir_and_watch_flag() {
    let args = vec!["testbin", "--inputdir", "/tmp/data", "--watch"];
    let cli = parse(args).unwrap();
    assert_eq!(cli.inputdir, "/tmp/data");
    assert!(cli.watch);
}

#[test]
fn test_input_dir_without_watch_flag() {
    let args = vec!["testbin", "--inputdir", "/tmp/data"];
    let cli = parse(args).unwrap();
    assert_eq!(cli.inputdir, "/tmp/data");
    assert!(!cli.watch);
}

#[test]
fn test_short_flags() {
    let args = vec!["testbin", "-i", "/tmp/data", "-w"];
    let cli = parse(args).unwrap();
    assert_eq!(cli.inputdir, "/tmp/data");
    assert!(cli.watch);
}

#[test]
fn noindex_switch_is_read() {
    let cli = parse(vec!["testbin", "-i", "/tmp/data", "--noindex"]).unwrap();
    assert!(cli.noindex);
    assert!(!cli.watch);
}

#[test]
fn missing_input_dir_is_rejected() {
    assert!(Cli::command().try_get_matches_from(vec!["testbin", "--watch"]).is_err());
}

#[test]
fn unknown_flag_is_rejected() {
    let r = Cli::command().try_get_matches_from(vec!["testbin", "-i", "/tmp/data", "--bogus"]);
    assert!(r.is_err());
}

#[test]
fn from_values_without_dir_fails() {
    let r = Cli::from_values(None, Some(true), None);
    assert_eq!(r.unwrap_err(), CliError::MissingInputDir);
    let ok = Cli::from_values(Some("/x".to_string()), None, Some(true)).unwrap();
    assert_eq!(ok.inputdir, "/x");
    assert!(!ok.watch);
    assert!(ok.noindex);
}
