use rcat::config::Numbering;
use rcat::source::Source;
use rcat::Config;

#[test]
fn both_flags_give_no_config() {
    assert!(Config::new(vec!["a".to_string()], true, true).is_none());
    assert!(Config::new(Vec::new(), true, true).is_none());
}

#[test]
fn no_files_means_standard_input() {
    let config = Config::new(Vec::new(), false, false).unwrap();
    assert_eq!(config.files(), &vec!["-".to_string()]);
    assert!(!config.number_lines());
    assert!(!config.number_nonblank_lines());
    assert_eq!(config.numbering(), Numbering::Off);
}

#[test]
fn files_keep_their_order() {
    let names = vec!["b.txt".to_string(), "-".to_string(), "a.txt".to_string()];
    let config = Config::new(names.clone(), true, false).unwrap();
    assert_eq!(config.files(), &names);
    assert!(config.number_lines());
    assert!(!config.number_nonblank_lines());
    assert_eq!(config.numbering(), Numbering::AllLines);
}

#[test]
fn nonblank_flag_alone() {
    let config = Config::new(vec!["x".to_string()], false, true).unwrap();
    assert!(!config.number_lines());
    assert!(config.number_nonblank_lines());
    assert_eq!(config.numbering(), Numbering::NonBlankLines);
}

#[test]
fn dash_is_standard_input() {
    assert!(matches!(Source::from_name("-"), Source::Stdin));
    assert_eq!(Source::stdin_text(), "-");
}

#[test]
fn other_names_are_files() {
    for name in ["file.txt", "", "--", "-a", " -", "- ", "−"] {
        match Source::from_name(name) {
            Source::File(path) => assert_eq!(path, name),
            Source::Stdin => panic!("{:?} was taken for standard input", name),
        }
    }
}
