use rcat::args::{refused, resolve, ArgsError};
use rcat::get_args;

fn tokens(texts: &[&str]) -> Vec<String> {
    texts.iter().map(|t| t.to_string()).collect()
}

#[test]
fn no_tokens_read_standard_input() {
    let config = get_args(&tokens(&[])).unwrap();
    assert_eq!(config.files(), &tokens(&["-"]));
    assert!(!config.number_lines());
    assert!(!config.number_nonblank_lines());
}

#[test]
fn positional_tokens_are_sources_in_order() {
    let config = get_args(&tokens(&["b.txt", "-", "a.txt"])).unwrap();
    assert_eq!(config.files(), &tokens(&["b.txt", "-", "a.txt"]));
}

#[test]
fn short_and_long_number_flag() {
    for flag in ["-n", "--number"] {
        let config = get_args(&tokens(&[flag, "x"])).unwrap();
        assert!(config.number_lines());
        assert!(!config.number_nonblank_lines());
        assert_eq!(config.files(), &tokens(&["x"]));
    }
}

#[test]
fn short_and_long_nonblank_flag() {
    for flag in ["-b", "--number-nonblank"] {
        let config = get_args(&tokens(&["x", flag])).unwrap();
        assert!(!config.number_lines());
        assert!(config.number_nonblank_lines());
        assert_eq!(config.files(), &tokens(&["x"]));
    }
}

#[test]
fn flag_alone_keeps_the_default_source() {
    let config = get_args(&tokens(&["-n"])).unwrap();
    assert_eq!(config.files(), &tokens(&["-"]));
    assert!(config.number_lines());
}

#[test]
fn both_flags_are_refused() {
    for request in [
        tokens(&["-n", "-b"]),
        tokens(&["-b", "-n"]),
        tokens(&["--number", "--number-nonblank"]),
        tokens(&["-nb", "x"]),
        tokens(&["x", "-b", "y", "--number"]),
    ] {
        match get_args(&request) {
            Err(error) => {
                assert!(error.is_failure());
                assert!(matches!(error, ArgsError::Usage(_)));
                assert!(!error.message().is_empty());
            }
            Ok(config) => panic!("{:?} gave {:?}", request, config),
        }
    }
}

#[test]
fn unknown_flag_is_a_usage_error() {
    let error = get_args(&tokens(&["--bogus"])).unwrap_err();
    assert!(matches!(error, ArgsError::Usage(_)));
    assert!(error.is_failure());
    assert!(error.message().contains("--bogus"));
}

#[test]
fn help_is_no_failure() {
    for flag in ["--help", "-h"] {
        let error = get_args(&tokens(&[flag])).unwrap_err();
        assert!(matches!(error, ArgsError::Displayed(_)));
        assert!(!error.is_failure());
        let text = error.message();
        assert!(text.contains("rcat"));
        assert!(text.contains("--number-nonblank"));
        assert!(text.contains("Input files"));
    }
}

#[test]
fn version_is_no_failure() {
    for flag in ["--version", "-V"] {
        let error = get_args(&tokens(&[flag, "x"])).unwrap_err();
        assert!(matches!(error, ArgsError::Displayed(_)));
        assert!(!error.is_failure());
    }
}

#[test]
fn tokens_after_two_dashes_are_sources() {
    let config = get_args(&tokens(&["--", "-n", "-b"])).unwrap();
    assert_eq!(config.files(), &tokens(&["-n", "-b"]));
    assert!(!config.number_lines());
    assert!(!config.number_nonblank_lines());
}

#[test]
fn resolve_without_values_reads_standard_input() {
    let config = resolve(None, false, true).unwrap();
    assert_eq!(config.files(), &tokens(&["-"]));
    assert!(config.number_nonblank_lines());
    let config = resolve(Some(Vec::new()), true, false).unwrap();
    assert_eq!(config.files(), &tokens(&["-"]));
    assert!(config.number_lines());
}

#[test]
fn resolve_keeps_the_values() {
    let config = resolve(Some(tokens(&["one", "two"])), false, false).unwrap();
    assert_eq!(config.files(), &tokens(&["one", "two"]));
    assert!(!config.number_lines());
    assert!(!config.number_nonblank_lines());
}

#[test]
fn resolve_refuses_both_flags() {
    let error = resolve(Some(tokens(&["one"])), true, true).unwrap_err();
    assert!(matches!(error, ArgsError::Conflict));
    assert!(error.is_failure());
    assert_eq!(
        error.message(),
        "The argument '--number' cannot be used with '--number-nonblank'"
    );
}

#[test]
fn refusals_are_sorted_by_stream() {
    let usage = refused(true, "bad".to_string());
    assert!(matches!(&usage, ArgsError::Usage(m) if m == "bad"));
    assert_eq!(usage.message(), "bad");
    let shown = refused(false, "help text".to_string());
    assert!(matches!(&shown, ArgsError::Displayed(m) if m == "help text"));
    assert_eq!(shown.message(), "help text");
    assert!(!shown.is_failure());
}
