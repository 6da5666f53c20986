use jjdag::log_tree::{
    get_parent_tree_position, JjLog, LogTreeError, LogTreeNode, NodeKind, TreePosition,
    DIFF_HUNK_LINE_IDX,
};
use jjdag::text::Text;

fn node(kind: NodeKind, label: &str, children: Vec<LogTreeNode>) -> LogTreeNode {
    LogTreeNode { kind, text: Text::raw(label), unfolded: false, flat_log_idx: 0, children }
}

fn commit(id: &str, working_copy: bool, children: Vec<LogTreeNode>) -> LogTreeNode {
    node(
        NodeKind::Commit {
            change_id: id.to_string(),
            current_working_copy: working_copy,
            description_first_line: None,
        },
        id,
        children,
    )
}

fn file(path: &str, children: Vec<LogTreeNode>) -> LogTreeNode {
    node(NodeKind::FileDiff { path: path.to_string() }, path, children)
}

fn hunk(label: &str, children: Vec<LogTreeNode>) -> LogTreeNode {
    node(NodeKind::DiffHunk, label, children)
}

fn line(label: &str, number: Option<u32>) -> LogTreeNode {
    node(NodeKind::DiffHunkLine { line_number: number }, label, vec![])
}

fn flat_commits(n: usize) -> JjLog {
    let mut log = JjLog::new();
    let commits = (0..n).map(|i| commit(&format!("c{i}"), false, vec![])).collect();
    log.load_log_tree(commits).unwrap();
    log
}

/// Three commits; the second has two files, the first of which has two
/// hunks of two lines each.
fn nested() -> JjLog {
    let mut log = JjLog::new();
    let commits = vec![
        commit("aaa", false, vec![]),
        commit(
            "bbb",
            true,
            vec![
                file(
                    "src/a.rs",
                    vec![
                        hunk("@@ 1 @@", vec![line("+x", Some(1)), line("-y", None)]),
                        hunk("@@ 9 @@", vec![line("+z", Some(9)), line(" w", Some(10))]),
                    ],
                ),
                file("src/b.rs", vec![]),
            ],
        ),
        commit("ccc", false, vec![file("src/c.rs", vec![])]),
    ];
    log.load_log_tree(commits).unwrap();
    log
}

fn plain(blocks: &[Text]) -> Vec<String> {
    blocks.iter().map(|b| b.plain()).collect()
}

#[test]
fn level_of_lines_is_three() {
    assert_eq!(DIFF_HUNK_LINE_IDX, 3);
}

#[test]
fn flatten_lists_only_commits_while_all_are_folded() {
    let mut log = nested();
    let (blocks, positions) = log.flatten_log();
    assert_eq!(plain(&blocks), vec!["aaa", "bbb", "ccc"]);
    assert_eq!(positions, vec![vec![0], vec![1], vec![2]]);
}

#[test]
fn flatten_of_empty_log_is_empty() {
    let mut log = JjLog::new();
    let (blocks, positions) = log.flatten_log();
    assert!(blocks.is_empty());
    assert!(positions.is_empty());
}

#[test]
fn flatten_follows_unfolded_nodes_depth_first() {
    let mut log = nested();
    log.toggle_fold(&vec![1]).unwrap();
    log.toggle_fold(&vec![1, 0]).unwrap();
    log.toggle_fold(&vec![1, 0, 1]).unwrap();
    let (blocks, positions) = log.flatten_log();
    assert_eq!(
        plain(&blocks),
        vec!["aaa", "bbb", "src/a.rs", "@@ 1 @@", "@@ 9 @@", "+z", " w", "src/b.rs", "ccc"]
    );
    let expected: Vec<TreePosition> = vec![
        vec![0],
        vec![1],
        vec![1, 0],
        vec![1, 0, 0],
        vec![1, 0, 1],
        vec![1, 0, 1, 0],
        vec![1, 0, 1, 1],
        vec![1, 1],
        vec![2],
    ];
    assert_eq!(positions, expected);
}

#[test]
fn flatten_twice_gives_the_same_lists() {
    let mut log = nested();
    log.toggle_fold(&vec![1]).unwrap();
    log.toggle_fold(&vec![2]).unwrap();
    let first = log.flatten_log();
    let second = log.flatten_log();
    assert_eq!(first, second);
}

#[test]
fn flatten_notes_the_place_of_each_visible_node() {
    let mut log = nested();
    log.toggle_fold(&vec![1]).unwrap();
    let (_, positions) = log.flatten_log();
    for (i, pos) in positions.iter().enumerate() {
        assert_eq!(log.get_tree_node(pos).unwrap().flat_log_idx(), i);
    }
}

#[test]
fn toggle_fold_returns_the_place_of_the_node() {
    let mut log = nested();
    assert_eq!(log.toggle_fold(&vec![1]), Ok(1));
    assert_eq!(log.toggle_fold(&vec![2]), Ok(4));
    assert_eq!(log.toggle_fold(&vec![1, 1]), Ok(3));
}

#[test]
fn toggle_fold_twice_gives_the_list_back() {
    let mut log = nested();
    log.toggle_fold(&vec![1]).unwrap();
    let before = log.flatten_log();
    let first = log.toggle_fold(&vec![1, 0]).unwrap();
    let unfolded = log.flatten_log();
    assert_ne!(before, unfolded);
    let second = log.toggle_fold(&vec![1, 0]).unwrap();
    let after = log.flatten_log();
    assert_eq!(before, after);
    assert_eq!(first, second);
    assert_eq!(after.1[second], vec![1, 0]);
}

#[test]
fn toggle_fold_refuses_a_position_without_a_node() {
    let mut log = nested();
    assert_eq!(log.toggle_fold(&vec![3]), Err(LogTreeError::InvalidPosition));
    assert_eq!(log.toggle_fold(&vec![]), Err(LogTreeError::InvalidPosition));
    assert_eq!(log.toggle_fold(&vec![1, 2]), Err(LogTreeError::InvalidPosition));
    let (_, positions) = log.flatten_log();
    assert_eq!(positions.len(), 3);
}

#[test]
fn load_refuses_nodes_off_their_level() {
    let mut log = nested();
    let wrong = vec![file("stray", vec![])];
    assert_eq!(log.load_log_tree(wrong), Err(LogTreeError::Malformed));
    let deep = vec![commit("x", false, vec![file("f", vec![hunk("h", vec![hunk("h2", vec![])])])])];
    assert_eq!(log.load_log_tree(deep), Err(LogTreeError::Malformed));
    assert_eq!(log.log_tree.len(), 3);
}

#[test]
fn next_sibling_in_a_flat_tree_of_five_commits() {
    let log = flat_commits(5);
    assert_eq!(log.next_sibling(&vec![2]), Ok(vec![3]));
    assert_eq!(log.next_sibling(&vec![3]), Ok(vec![4]));
    assert_eq!(log.next_sibling(&vec![4]), Ok(vec![4]));
}

#[test]
fn next_sibling_of_a_last_child_is_the_next_sibling_of_the_parent() {
    let log = nested();
    assert_eq!(log.next_sibling(&vec![1, 0]), Ok(vec![1, 1]));
    assert_eq!(log.next_sibling(&vec![1, 1]), Ok(vec![2]));
    assert_eq!(log.next_sibling(&vec![1, 0, 0]), Ok(vec![1, 0, 1]));
    assert_eq!(log.next_sibling(&vec![1, 0, 1]), Ok(vec![1, 1]));
}

#[test]
fn next_sibling_stays_where_nothing_follows() {
    let mut log = nested();
    assert_eq!(log.next_sibling(&vec![2, 0]), Ok(vec![2, 0]));
    assert_eq!(log.next_sibling(&vec![2]), Ok(vec![2]));
    log.toggle_fold(&vec![2]).unwrap();
    let (_, positions) = log.flatten_log();
    let last = positions.last().unwrap().clone();
    assert_eq!(last, vec![2, 0]);
    assert_eq!(log.next_sibling(&last), Ok(last.clone()));
}

#[test]
fn next_sibling_of_a_line_without_anything_behind_is_the_line() {
    let mut log = JjLog::new();
    let commits = vec![commit(
        "aaa",
        false,
        vec![file("a.rs", vec![hunk("@@", vec![line("+x", None), line("+y", None)])])],
    )];
    log.load_log_tree(commits).unwrap();
    assert_eq!(log.next_sibling(&vec![0, 0, 0, 0]), Ok(vec![0, 0, 0, 0]));
    assert_eq!(log.next_sibling(&vec![0, 0, 0, 1]), Ok(vec![0, 0, 0, 1]));
    assert_eq!(log.next_sibling(&vec![0, 0, 0]), Ok(vec![0, 0, 0]));
}

#[test]
fn next_sibling_of_a_line_is_that_of_its_hunk() {
    let log = nested();
    assert_eq!(log.next_sibling(&vec![1, 0, 0, 0]), Ok(vec![1, 0, 1]));
    assert_eq!(log.next_sibling(&vec![1, 0, 1, 1]), Ok(vec![1, 1]));
}

#[test]
fn repeated_next_sibling_ends_on_the_last_commit() {
    let log = nested();
    let mut pos = vec![1, 0, 0, 1];
    let mut steps = 0;
    loop {
        let next = log.next_sibling(&pos).unwrap();
        if next == pos {
            break;
        }
        pos = next;
        steps += 1;
        assert!(steps < 20);
    }
    assert_eq!(pos, vec![2]);
    assert_eq!(log.next_sibling(&pos), Ok(vec![2]));
}

#[test]
fn prev_sibling_steps_back_or_to_what_precedes_the_parent() {
    let log = nested();
    assert_eq!(log.prev_sibling(&vec![2]), Ok(vec![1]));
    assert_eq!(log.prev_sibling(&vec![0]), Ok(vec![0]));
    assert_eq!(log.prev_sibling(&vec![1, 1]), Ok(vec![1, 0]));
    assert_eq!(log.prev_sibling(&vec![1, 0]), Ok(vec![0]));
    assert_eq!(log.prev_sibling(&vec![2, 0]), Ok(vec![1]));
    assert_eq!(log.prev_sibling(&vec![1, 0, 1]), Ok(vec![1, 0, 0]));
    assert_eq!(log.prev_sibling(&vec![1, 0, 0]), Ok(vec![0]));
}

#[test]
fn prev_sibling_of_a_line_is_that_of_its_hunk() {
    let log = nested();
    assert_eq!(log.prev_sibling(&vec![1, 0, 1, 1]), Ok(vec![1, 0, 0]));
    assert_eq!(log.prev_sibling(&vec![1, 0, 1, 0]), Ok(vec![1, 0, 0]));
    assert_eq!(log.prev_sibling(&vec![1, 0, 0, 1]), Ok(vec![0]));
}

#[test]
fn prev_sibling_below_the_first_commit_ends_on_it() {
    let mut log = JjLog::new();
    log.load_log_tree(vec![commit("aaa", false, vec![file("a.rs", vec![]), file("b.rs", vec![])])])
        .unwrap();
    assert_eq!(log.prev_sibling(&vec![0, 1]), Ok(vec![0, 0]));
    assert_eq!(log.prev_sibling(&vec![0, 0]), Ok(vec![0]));
    assert_eq!(log.prev_sibling(&vec![0]), Ok(vec![0]));
}

#[test]
fn repeated_prev_sibling_ends_on_the_first_commit() {
    let log = nested();
    let mut pos = vec![2, 0];
    let mut steps = 0;
    while pos != vec![0] {
        pos = log.prev_sibling(&pos).unwrap();
        steps += 1;
        assert!(steps < 20);
    }
    assert_eq!(log.prev_sibling(&pos), Ok(vec![0]));
}

#[test]
fn sibling_steps_refuse_a_position_without_a_node() {
    let log = nested();
    assert_eq!(log.next_sibling(&vec![7]), Err(LogTreeError::InvalidPosition));
    assert_eq!(log.prev_sibling(&vec![1, 5]), Err(LogTreeError::InvalidPosition));
}

#[test]
fn parent_position_drops_the_last_index() {
    assert_eq!(get_parent_tree_position(&vec![1, 0, 1]), Some(vec![1, 0]));
    assert_eq!(get_parent_tree_position(&vec![1]), None);
    assert_eq!(get_parent_tree_position(&vec![]), None);
}

#[test]
fn nodes_are_found_by_position() {
    let log = nested();
    assert_eq!(log.get_tree_node(&vec![1, 0, 1, 1]).unwrap().line_number(), Some(10));
    assert_eq!(log.get_tree_node(&vec![1, 0, 0, 1]).unwrap().line_number(), None);
    assert_eq!(log.get_tree_node(&vec![1]).unwrap().line_number(), None);
    assert!(log.get_tree_node(&vec![1, 0, 2]).is_err());
    let commit = log.get_tree_commit(&vec![1, 0, 1]).unwrap();
    assert_eq!(commit.change_id().map(String::as_str), Some("bbb"));
    assert!(log.get_tree_commit(&vec![9]).is_none());
    let file = log.get_tree_file_diff(&vec![1, 0, 1, 0]).unwrap();
    assert_eq!(file.path().map(String::as_str), Some("src/a.rs"));
    assert!(log.get_tree_file_diff(&vec![1]).is_none());
    assert_eq!(log.get_tree_node(&vec![1, 0]).unwrap().children().len(), 2);
}

#[test]
fn current_commit_is_the_first_working_copy() {
    let log = nested();
    let current = log.get_current_commit().unwrap();
    assert_eq!(current.change_id().map(String::as_str), Some("bbb"));
    assert!(current.is_working_copy());
    assert!(flat_commits(3).get_current_commit().is_none());
}
