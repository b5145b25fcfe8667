use rcat::config::Numbering;
use rcat::emit::{render, LineNumberer};

fn lines(texts: &[&str]) -> Vec<String> {
    texts.iter().map(|t| t.to_string()).collect()
}

#[test]
fn all_lines_are_numbered_by_position() {
    let out = render(Numbering::AllLines, &lines(&["foo", "", "bar"]));
    assert_eq!(out, vec!["     1\tfoo", "     2\t", "     3\tbar"]);
}

#[test]
fn nonblank_lines_are_numbered_by_count() {
    let out = render(Numbering::NonBlankLines, &lines(&["foo", "", "bar"]));
    assert_eq!(out, vec!["     1\tfoo", "", "     2\tbar"]);
}

#[test]
fn unnumbered_lines_are_unchanged() {
    let out = render(Numbering::Off, &lines(&["foo", "", "bar"]));
    assert_eq!(out, vec!["foo", "", "bar"]);
}

#[test]
fn empty_source_writes_nothing() {
    assert!(render(Numbering::Off, &Vec::new()).is_empty());
    assert!(render(Numbering::AllLines, &Vec::new()).is_empty());
    assert!(render(Numbering::NonBlankLines, &Vec::new()).is_empty());
}

#[test]
fn leading_and_repeated_blank_lines() {
    let input = lines(&["", "", "a", "", "b", ""]);
    assert_eq!(
        render(Numbering::NonBlankLines, &input),
        vec!["", "", "     1\ta", "", "     2\tb", ""]
    );
    assert_eq!(
        render(Numbering::AllLines, &input),
        vec!["     1\t", "     2\t", "     3\ta", "     4\t", "     5\tb", "     6\t"]
    );
}

#[test]
fn a_line_of_spaces_is_not_blank() {
    let out = render(Numbering::NonBlankLines, &lines(&[" ", "", "\t"]));
    assert_eq!(out, vec!["     1\t ", "", "     2\t\t"]);
}

#[test]
fn line_content_is_kept_as_it_is() {
    let out = render(Numbering::AllLines, &lines(&["héllo wörld", "日本語"]));
    assert_eq!(out, vec!["     1\théllo wörld", "     2\t日本語"]);
}

#[test]
fn tenth_line_takes_two_columns() {
    let input = lines(&["x"; 12]);
    let out = render(Numbering::AllLines, &input);
    assert_eq!(out[8], "     9\tx");
    assert_eq!(out[9], "    10\tx");
    assert_eq!(out[11], "    12\tx");
    assert_eq!(out.len(), 12);
}

#[test]
fn numberer_counts_line_by_line() {
    let mut numberer = LineNumberer::new(Numbering::NonBlankLines);
    assert!(numberer.has_room());
    assert_eq!(numberer.emit("foo"), "     1\tfoo");
    assert_eq!(numberer.emit(""), "");
    assert_eq!(numberer.emit("bar"), "     2\tbar");
}

#[test]
fn numberer_restarts_at_one() {
    let mut numberer = LineNumberer::new(Numbering::AllLines);
    assert_eq!(numberer.emit("a"), "     1\ta");
    assert_eq!(numberer.emit("b"), "     2\tb");
    numberer.restart();
    assert_eq!(numberer.emit("c"), "     1\tc");
}

#[test]
fn numberer_without_numbering_copies() {
    let mut numberer = LineNumberer::new(Numbering::Off);
    assert_eq!(numberer.emit("plain"), "plain");
    assert_eq!(numberer.emit(""), "");
}
