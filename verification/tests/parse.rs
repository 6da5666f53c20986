use jjdag::log_tree::{JjLog, LogTreeNode, NodeKind};
use jjdag::parse::{parse_diff, parse_log, ParseError, FIELD_SEPARATOR};
use jjdag::text::TextColor;

const DIFF: &str = "\
diff --git a/src/a.rs b/src/a.rs
index 1234567..89abcde 100644
--- a/src/a.rs
+++ b/src/a.rs
@@ -10,4 +12,5 @@ fn main() {
 context
-removed
+added
+added too
\\ No newline at end of file
@@ -40 +43,2 @@
+late
diff --git a/new file.txt b/new file.txt
new file mode 100644
";

fn path(node: &LogTreeNode) -> &str {
    node.path().unwrap()
}

#[test]
fn diff_is_read_into_files_hunks_and_lines() {
    let files = parse_diff(DIFF);
    assert_eq!(files.len(), 2);
    assert_eq!(path(&files[0]), "src/a.rs");
    assert_eq!(path(&files[1]), "new file.txt");
    assert_eq!(
        files[0].text.plain(),
        "diff --git a/src/a.rs b/src/a.rs\nindex 1234567..89abcde 100644\n--- a/src/a.rs\n+++ b/src/a.rs"
    );
    assert_eq!(files[1].text.plain(), "diff --git a/new file.txt b/new file.txt\nnew file mode 100644");
    assert!(files[1].children.is_empty());
    let hunks = &files[0].children;
    assert_eq!(hunks.len(), 2);
    assert_eq!(hunks[0].kind, NodeKind::DiffHunk);
    assert_eq!(hunks[0].text.plain(), "@@ -10,4 +12,5 @@ fn main() {");
    let numbers: Vec<Option<u32>> = hunks[0].children.iter().map(|l| l.line_number()).collect();
    assert_eq!(numbers, vec![Some(12), None, Some(13), Some(14), None]);
    assert_eq!(hunks[0].children[2].text.plain(), "+added");
    assert_eq!(hunks[1].children.len(), 1);
    assert_eq!(hunks[1].children[0].line_number(), Some(43));
    assert!(files.iter().all(|f| !f.unfolded));
}

#[test]
fn diff_keeps_the_colours_and_reads_around_them() {
    let coloured = "\u{1b}[1mdiff --git a/x b/x\u{1b}[0m\n\u{1b}[36m@@ -1 +1 @@\u{1b}[0m\n\u{1b}[32m+new\u{1b}[0m\n";
    let files = parse_diff(coloured);
    assert_eq!(files.len(), 1);
    assert_eq!(path(&files[0]), "x");
    let line = &files[0].children[0].children[0];
    assert_eq!(line.line_number(), Some(1));
    assert_eq!(line.text.plain(), "+new");
    assert_eq!(line.text.lines[0].spans[0].style.fg, Some(TextColor::Green));
}

#[test]
fn diff_without_a_file_is_empty() {
    assert!(parse_diff("").is_empty());
    assert!(parse_diff("@@ -1 +1 @@\n+stray\n").is_empty());
}

#[test]
fn diff_header_without_a_second_path_names_the_rest() {
    let files = parse_diff("diff --git whatever\n@@ nonsense\n+x\n");
    assert_eq!(path(&files[0]), "whatever");
    assert_eq!(files[0].children[0].children[0].line_number(), Some(0));
}

#[test]
fn diff_fits_below_a_commit() {
    let mut commit = LogTreeNode {
        kind: NodeKind::Commit {
            change_id: "abc".to_string(),
            current_working_copy: true,
            description_first_line: None,
        },
        text: jjdag::text::Text::raw("abc"),
        unfolded: false,
        flat_log_idx: 0,
        children: vec![],
    };
    commit.children = parse_diff(DIFF);
    let mut log = JjLog::new();
    assert_eq!(log.load_log_tree(vec![commit]), Ok(()));
    log.toggle_fold(&vec![0]).unwrap();
    log.toggle_fold(&vec![0, 0]).unwrap();
    let (_, positions) = log.flatten_log();
    assert_eq!(positions, vec![vec![0], vec![0, 0], vec![0, 0, 0], vec![0, 0, 1], vec![0, 1]]);
}

fn head(prefix: &str, id: &str, mark: &str, description: &str, rest: &str) -> String {
    let s = FIELD_SEPARATOR;
    format!("{prefix}{s}{id}{s}{mark}{s}{description}{s}{rest}")
}

#[test]
fn log_is_read_into_commits() {
    let output = [
        head("@  ", "\u{1b}[1mkkmpptxz\u{1b}[0m", "@", "add parser", "kkmpptxz me 2 minutes ago"),
        "│  add parser".to_string(),
        head("○  ", "zzzzzzzz", "", "", "zzzzzzzz root()"),
        "~".to_string(),
    ]
    .join("\n");
    let commits = parse_log(&output).unwrap();
    assert_eq!(commits.len(), 2);
    assert_eq!(
        commits[0].kind,
        NodeKind::Commit {
            change_id: "kkmpptxz".to_string(),
            current_working_copy: true,
            description_first_line: Some("add parser".to_string()),
        }
    );
    assert_eq!(commits[0].text.plain(), "@  kkmpptxz me 2 minutes ago\n│  add parser");
    assert_eq!(
        commits[1].kind,
        NodeKind::Commit {
            change_id: "zzzzzzzz".to_string(),
            current_working_copy: false,
            description_first_line: None,
        }
    );
    assert_eq!(commits[1].text.plain(), "○  zzzzzzzz root()\n~");
    assert!(commits.iter().all(|c| c.children.is_empty() && !c.unfolded));
}

#[test]
fn log_lines_before_the_first_commit_are_passed_over() {
    let output = format!("warning: something\n{}\n", head("", "a", "", "d", "rest"));
    let commits = parse_log(&output).unwrap();
    assert_eq!(commits.len(), 1);
    assert_eq!(commits[0].text.plain(), "rest");
    assert!(parse_log("").unwrap().is_empty());
    assert!(parse_log("no commits here\n").unwrap().is_empty());
}

#[test]
fn log_keeps_separators_behind_the_fields() {
    let s = FIELD_SEPARATOR;
    let output = format!("{}{s}tail", head("* ", "a", "", "", "mid"));
    let commits = parse_log(&output).unwrap();
    assert_eq!(commits[0].text.plain(), format!("* mid{s}tail"));
}

#[test]
fn log_with_a_broken_first_line_is_refused() {
    let s = FIELD_SEPARATOR;
    let output = format!("{}\nplain\n{s}only{s}two\n{s}\n", head("", "a", "", "", ""));
    assert_eq!(parse_log(&output).err(), Some(ParseError::MalformedCommit { line: 2 }));
    assert_eq!(
        parse_log(&format!("x{s}y{s}z{s}")).err(),
        Some(ParseError::MalformedCommit { line: 0 })
    );
}
