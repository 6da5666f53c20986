use jjdag::dialogs::{Effect, Query};
use jjdag::keys::{Event, Key, KeyEvent, MouseEvent, MouseEventKind};
use jjdag::log_tree::{LogTreeError, LogTreeNode, NodeKind};
use jjdag::model::{ListState, Model, Rect, State};
use jjdag::navigation::ScrollDirection;
use jjdag::text::Text;
use jjdag::update::{
    handle_key, handle_mouse, handle_msg, update, AbandonMode, AbsorbMode, BookmarkMoveMode,
    DescribeMode, DuplicateDestination, DuplicateDestinationType, GitFetchMode, GitPushMode,
    InterdiffMode, Message, MetaeditAction, NewMode, NextPrevDirection, NextPrevMode,
    ParallelizeSource, Popup, RebaseDestination, RebaseDestinationType, RebaseSourceType,
    RestoreMode, RevertDestination, RevertDestinationType, RevertRevision, SignAction,
    SimplifyParentsMode, SquashMode, TextInputLocation, TextPromptAction, ViewMode,
};

fn node(kind: NodeKind, label: &str, children: Vec<LogTreeNode>) -> LogTreeNode {
    LogTreeNode { kind, text: Text::raw(label), unfolded: false, flat_log_idx: 0, children }
}

fn commit(id: &str, wc: bool, desc: Option<&str>, children: Vec<LogTreeNode>) -> LogTreeNode {
    let mut n = node(
        NodeKind::Commit {
            change_id: id.to_string(),
            current_working_copy: wc,
            description_first_line: desc.map(str::to_string),
        },
        id,
        children,
    );
    n.text = Text::from_lines(vec![jjdag::text::Line::raw(id), jjdag::text::Line::raw("  desc")]);
    n
}

fn file(path: &str, children: Vec<LogTreeNode>) -> LogTreeNode {
    node(NodeKind::FileDiff { path: path.to_string() }, path, children)
}

fn commits() -> Vec<LogTreeNode> {
    vec![
        commit("aaa", false, Some("first"), vec![file("a.rs", vec![])]),
        commit(
            "bbb",
            true,
            None,
            vec![
                file(
                    "src/b.rs",
                    vec![node(
                        NodeKind::DiffHunk,
                        "@@",
                        vec![
                            node(NodeKind::DiffHunkLine { line_number: Some(12) }, "+l", vec![]),
                            node(NodeKind::DiffHunkLine { line_number: None }, "-l", vec![]),
                        ],
                    )],
                ),
                file("src/c.rs", vec![]),
            ],
        ),
        commit("ccc", false, Some("third"), vec![]),
    ]
}

/// The cursor starts on the working copy `bbb`, which is unfolded:
/// aaa, bbb, src/b.rs, src/c.rs, ccc.
fn model() -> Model {
    Model::new("/repo".to_string(), "all()".to_string(), Some("/home/u"), commits()).unwrap()
}

fn info(model: &Model) -> String {
    model.info_list.as_ref().unwrap().plain()
}

fn queued(model: &Model) -> Vec<Vec<String>> {
    model.queued_jj_commands.iter().map(|c| c.args.clone()).collect()
}

fn strs(items: &[&str]) -> Vec<String> {
    items.iter().map(|s| s.to_string()).collect()
}

fn selected(model: &Model) -> Vec<usize> {
    model.get_selected_tree_position().unwrap()
}

fn press(model: &mut Model, key: Key) -> Effect {
    update(model, Event::Key(KeyEvent { code: key, control: false }), 0)
}

#[test]
fn new_model_shows_the_log_with_the_working_copy_unfolded() {
    let m = model();
    assert_eq!(m.state, State::Running);
    assert_eq!(m.display_repository, "/repo");
    let shown: Vec<String> = m.log_list.iter().map(|t| t.plain()).collect();
    assert_eq!(shown, vec!["aaa\n  desc", "bbb\n  desc", "src/b.rs", "src/c.rs", "ccc\n  desc"]);
    assert_eq!(m.log_list_tree_positions, vec![vec![0], vec![1], vec![1, 0], vec![1, 1], vec![2]]);
    assert_eq!(m.log_list_state, ListState { offset: 0, selected: Some(1) });
    assert_eq!(selected(&m), vec![1]);
    assert!(!m.global_args.ignore_immutable);
    assert!(m.info_list.is_none());
}

#[test]
fn new_model_without_a_working_copy_starts_on_the_first_commit() {
    let list = vec![commit("x", false, None, vec![file("f", vec![])]), commit("y", false, None, vec![])];
    let m = Model::new("/r".to_string(), "@".to_string(), None, list).unwrap();
    assert_eq!(selected(&m), vec![0]);
    assert_eq!(m.log_list.len(), 3);
}

#[test]
fn new_model_of_an_empty_log_is_empty() {
    let mut m = Model::new("/r".to_string(), "none()".to_string(), None, vec![]).unwrap();
    assert!(m.log_list.is_empty());
    assert_eq!(m.log_list_state.selected, Some(0));
    assert!(m.get_selected_tree_position().is_none());
    m.select_next_node();
    m.select_parent_node();
    m.select_current_next_sibling_node();
    m.toggle_current_fold();
    m.scroll_down_page();
    assert_eq!(m.log_list_state.selected, Some(0));
}

#[test]
fn new_model_refuses_a_malformed_log() {
    let bad = vec![file("stray", vec![])];
    let r = Model::new("/r".to_string(), "@".to_string(), None, bad);
    assert_eq!(r.err(), Some(LogTreeError::Malformed));
}

#[test]
fn cursor_moves_by_node() {
    let mut m = model();
    m.select_next_node();
    assert_eq!(selected(&m), vec![1, 0]);
    m.select_prev_node();
    m.select_prev_node();
    assert_eq!(selected(&m), vec![0]);
    m.select_prev_node();
    assert_eq!(selected(&m), vec![0]);
    for _ in 0..9 {
        m.select_next_node();
    }
    assert_eq!(selected(&m), vec![2]);
}

#[test]
fn next_sibling_on_the_last_node_shown_changes_nothing() {
    let log = vec![
        commit("aaa", false, None, vec![]),
        commit("bbb", true, None, vec![file("x.rs", vec![]), file("y.rs", vec![])]),
    ];
    let mut m = Model::new("/repo".to_string(), "all()".to_string(), None, log).unwrap();
    assert_eq!(m.log_list.len(), 4);
    m.select_next_node();
    m.select_next_node();
    assert_eq!(selected(&m), vec![1, 1]);
    assert_eq!(m.log_list_state.selected, Some(3));
    let shown = m.log_list.clone();
    let places = m.log_list_tree_positions.clone();
    m.select_current_next_sibling_node();
    assert_eq!(m.log_list_state.selected, Some(3));
    assert_eq!(selected(&m), vec![1, 1]);
    assert_eq!(m.log_list, shown);
    assert_eq!(m.log_list_tree_positions, places);
    m.select_current_next_sibling_node();
    assert_eq!(m.log_list_state.selected, Some(3));
}

#[test]
fn prev_sibling_of_a_first_child_is_the_commit_before() {
    let mut m = model();
    m.select_next_node();
    assert_eq!(selected(&m), vec![1, 0]);
    m.select_current_prev_sibling_node();
    assert_eq!(selected(&m), vec![0]);
}

#[test]
fn cursor_moves_by_sibling_and_parent() {
    let mut m = model();
    m.select_next_node();
    assert_eq!(selected(&m), vec![1, 0]);
    m.select_current_next_sibling_node();
    assert_eq!(selected(&m), vec![1, 1]);
    m.select_current_next_sibling_node();
    assert_eq!(selected(&m), vec![2]);
    m.select_current_next_sibling_node();
    assert_eq!(selected(&m), vec![2]);
    m.select_current_prev_sibling_node();
    assert_eq!(selected(&m), vec![1]);
    m.select_next_node();
    assert_eq!(selected(&m), vec![1, 0]);
    m.select_current_prev_sibling_node();
    assert_eq!(selected(&m), vec![0]);
    m.select_current_prev_sibling_node();
    assert_eq!(selected(&m), vec![0]);
    m.select_next_node();
    m.select_next_node();
    m.select_parent_node();
    assert_eq!(selected(&m), vec![1]);
    m.select_parent_node();
    assert_eq!(selected(&m), vec![1]);
}

#[test]
fn cursor_returns_to_the_working_copy() {
    let mut m = model();
    m.select_prev_node();
    m.select_current_working_copy();
    assert_eq!(selected(&m), vec![1]);
}

#[test]
fn toggling_the_fold_keeps_the_cursor_on_the_node() {
    let mut m = model();
    m.select_next_node();
    m.toggle_current_fold();
    assert_eq!(selected(&m), vec![1, 0]);
    assert_eq!(m.log_list.len(), 6);
    m.select_next_node();
    assert_eq!(selected(&m), vec![1, 0, 0]);
    m.select_prev_node();
    m.select_prev_node();
    m.toggle_current_fold();
    assert_eq!(selected(&m), vec![1]);
    assert_eq!(m.log_list.len(), 3);
    m.toggle_current_fold();
    assert_eq!(m.log_list.len(), 6);
    assert_eq!(selected(&m), vec![1]);
}

#[test]
fn quit_and_ignore_immutable() {
    let mut m = model();
    m.toggle_ignore_immutable();
    assert!(m.global_args.ignore_immutable);
    m.toggle_ignore_immutable();
    assert!(!m.global_args.ignore_immutable);
    m.quit();
    assert_eq!(m.state, State::Quit);
    assert_eq!(State::default(), State::Running);
}

#[test]
fn abandon_names_the_selected_change() {
    let mut m = model();
    m.jj_abandon(AbandonMode::Default);
    assert_eq!(queued(&m), vec![strs(&["abandon", "bbb"])]);
    m.jj_abandon(AbandonMode::RetainBookmarks);
    assert_eq!(queued(&m), vec![strs(&["abandon", "--retain-bookmarks", "bbb"])]);
    m.jj_abandon(AbandonMode::RestoreDescendants);
    assert_eq!(queued(&m), vec![strs(&["abandon", "--restore-descendants", "bbb"])]);
    assert_eq!(info(&m), "jj abandon --restore-descendants bbb\nRunning...");
    assert!(m.queued_jj_commands[0].sync);
    assert!(!m.queued_jj_commands[0].interactive);
    assert_eq!(m.queued_jj_commands[0].global_args.repository, "/repo");
}

#[test]
fn commands_without_a_selection_report_that() {
    let mut m = Model::new("/r".to_string(), "none()".to_string(), None, vec![]).unwrap();
    m.jj_abandon(AbandonMode::Default);
    assert_eq!(info(&m), "Invalid selection");
    assert!(m.queued_jj_commands.is_empty());
    m.info_list = None;
    m.jj_edit();
    m.jj_split();
    m.jj_rebase_selected_branch_onto_trunk_sync();
    m.jj_new_on_branch();
    assert_eq!(info(&m), "Invalid selection");
    assert!(m.queued_jj_commands.is_empty());
    m.jj_new(NewMode::AfterTrunk);
    assert_eq!(queued(&m), vec![strs(&["new", "trunk()"])]);
}

#[test]
fn two_step_commands_need_a_saved_selection() {
    let mut m = model();
    m.jj_rebase(RebaseSourceType::Branch, RebaseDestinationType::Onto, RebaseDestination::Selection);
    assert_eq!(info(&m), "Invalid selection");
    m.jj_squash(SquashMode::Into);
    m.jj_absorb(AbsorbMode::Into);
    m.jj_bookmark_move(BookmarkMoveMode::Default);
    m.jj_sign(SignAction::Sign, true);
    m.jj_restore(RestoreMode::FromInto);
    m.jj_revert(RevertRevision::Saved, RevertDestinationType::Onto, RevertDestination::Selection);
    m.jj_interdiff(InterdiffMode::FromSelectionToDestination);
    m.jj_view(ViewMode::FromSelectionToDestination);
    m.jj_duplicate(DuplicateDestinationType::Onto, DuplicateDestination::Selection);
    m.jj_parallelize(ParallelizeSource::Range);
    assert!(m.queued_jj_commands.is_empty());
    assert_eq!(info(&m), "Invalid selection");
}

#[test]
fn two_step_commands_name_source_and_destination() {
    let mut m = model();
    m.select_next_node();
    m.save_selection();
    assert_eq!(m.saved_file_path.as_deref(), Some("src/b.rs"));
    assert_eq!(m.get_saved_selection_flat_log_idxs(), (Some(1), Some(2)));
    m.select_prev_node();
    m.select_prev_node();
    m.jj_rebase(RebaseSourceType::Source, RebaseDestinationType::InsertAfter, RebaseDestination::Selection);
    assert_eq!(queued(&m), vec![strs(&["rebase", "--source", "bbb", "--insert-after", "aaa"])]);
    m.jj_rebase(RebaseSourceType::Revisions, RebaseDestinationType::InsertBefore, RebaseDestination::Trunk);
    assert_eq!(queued(&m), vec![strs(&["rebase", "--revisions", "bbb", "--insert-before", "trunk()"])]);
    m.jj_rebase(RebaseSourceType::Branch, RebaseDestinationType::Onto, RebaseDestination::Current);
    assert_eq!(queued(&m), vec![strs(&["rebase", "--branch", "bbb", "--onto", "@"])]);
    m.jj_squash(SquashMode::Into);
    assert_eq!(queued(&m), vec![strs(&["squash", "--from", "bbb", "--into", "aaa", "src/b.rs"])]);
    assert!(m.queued_jj_commands[0].interactive);
    m.jj_absorb(AbsorbMode::Into);
    assert_eq!(queued(&m), vec![strs(&["absorb", "--from", "bbb", "--into", "aaa", "src/b.rs"])]);
    m.jj_bookmark_move(BookmarkMoveMode::AllowBackwards);
    assert_eq!(
        queued(&m),
        vec![strs(&["bookmark", "move", "--from", "bbb", "--to", "aaa", "--allow-backwards"])]
    );
    m.jj_sign(SignAction::Unsign, true);
    assert_eq!(queued(&m), vec![strs(&["unsign", "-r", "bbb::aaa"])]);
    m.jj_restore(RestoreMode::FromInto);
    assert_eq!(queued(&m), vec![strs(&["restore", "--from", "bbb", "--into", "aaa", "src/b.rs"])]);
    m.jj_revert(RevertRevision::Saved, RevertDestinationType::InsertAfter, RevertDestination::Selection);
    assert_eq!(queued(&m), vec![strs(&["revert", "-r", "bbb", "--insert-after", "aaa"])]);
    m.jj_interdiff(InterdiffMode::FromSelectionToDestination);
    assert_eq!(queued(&m), vec![strs(&["interdiff", "--from", "bbb", "--to", "aaa", "src/b.rs"])]);
    m.jj_view(ViewMode::FromSelectionToDestination);
    assert_eq!(queued(&m), vec![strs(&["diff", "--from", "bbb", "--to", "aaa"])]);
    m.jj_duplicate(DuplicateDestinationType::InsertBefore, DuplicateDestination::Selection);
    assert_eq!(queued(&m), vec![strs(&["duplicate", "bbb", "--insert-before", "aaa"])]);
    m.jj_parallelize(ParallelizeSource::Range);
    assert_eq!(queued(&m), vec![strs(&["parallelize", "bbb::aaa"])]);
}

#[test]
fn one_step_commands_name_the_selection() {
    let mut m = model();
    m.select_next_node();
    m.jj_absorb(AbsorbMode::Default);
    assert_eq!(queued(&m), vec![strs(&["absorb", "--from", "bbb", "src/b.rs"])]);
    m.jj_bookmark_move(BookmarkMoveMode::Tug);
    assert_eq!(
        queued(&m),
        vec![strs(&["bookmark", "move", "--from", "heads(::@- & bookmarks())", "--to", "bbb"])]
    );
    m.jj_commit();
    assert_eq!(queued(&m), vec![strs(&["commit", "src/b.rs"])]);
    m.jj_duplicate(DuplicateDestinationType::Default, DuplicateDestination::Default);
    assert_eq!(queued(&m), vec![strs(&["duplicate", "bbb"])]);
    m.jj_edit();
    assert_eq!(queued(&m), vec![strs(&["edit", "bbb"])]);
    m.jj_evolog(true);
    assert_eq!(queued(&m), vec![strs(&["evolog", "-r", "bbb", "--patch"])]);
    assert!(!m.queued_jj_commands[0].sync);
    m.jj_evolog(false);
    assert_eq!(queued(&m), vec![strs(&["evolog", "-r", "bbb"])]);
    m.jj_file_untrack();
    assert_eq!(queued(&m), vec![strs(&["file", "untrack", "src/b.rs"])]);
    m.jj_interdiff(InterdiffMode::FromSelection);
    assert_eq!(queued(&m), vec![strs(&["interdiff", "--from", "bbb", "--to", "@", "src/b.rs"])]);
    m.jj_interdiff(InterdiffMode::ToSelection);
    assert_eq!(queued(&m), vec![strs(&["interdiff", "--from", "@", "--to", "bbb", "src/b.rs"])]);
    m.jj_new(NewMode::Default);
    assert_eq!(queued(&m), vec![strs(&["new", "bbb"])]);
    m.jj_new(NewMode::Before);
    assert_eq!(queued(&m), vec![strs(&["new", "--no-edit", "--insert-before", "bbb"])]);
    m.jj_new(NewMode::InsertAfter);
    assert_eq!(queued(&m), vec![strs(&["new", "--insert-after", "bbb"])]);
    m.jj_rebase_selected_branch_onto_trunk();
    assert_eq!(queued(&m), vec![strs(&["rebase", "--branch", "bbb", "--onto", "trunk()"])]);
    m.jj_restore(RestoreMode::ChangesIn);
    assert_eq!(queued(&m), vec![strs(&["restore", "--changes-in", "bbb", "src/b.rs"])]);
    m.jj_restore(RestoreMode::ChangesInRestoreDescendants);
    assert_eq!(
        queued(&m),
        vec![strs(&["restore", "--changes-in", "bbb", "--restore-descendants", "src/b.rs"])]
    );
    m.jj_restore(RestoreMode::From);
    assert_eq!(queued(&m), vec![strs(&["restore", "--from", "bbb", "src/b.rs"])]);
    m.jj_restore(RestoreMode::Into);
    assert_eq!(queued(&m), vec![strs(&["restore", "--into", "bbb", "src/b.rs"])]);
    m.jj_revert(RevertRevision::Selection, RevertDestinationType::Onto, RevertDestination::Current);
    assert_eq!(queued(&m), vec![strs(&["revert", "-r", "bbb", "--onto", "@"])]);
    m.jj_resolve();
    assert_eq!(queued(&m), vec![strs(&["resolve", "-r", "bbb"])]);
    m.jj_sign(SignAction::Sign, false);
    assert_eq!(queued(&m), vec![strs(&["sign", "-r", "bbb"])]);
    m.jj_simplify_parents(SimplifyParentsMode::Revisions);
    assert_eq!(queued(&m), vec![strs(&["simplify-parents", "-r", "bbb"])]);
    m.jj_simplify_parents(SimplifyParentsMode::Source);
    assert_eq!(queued(&m), vec![strs(&["simplify-parents", "-s", "bbb"])]);
    m.jj_split();
    assert_eq!(queued(&m), vec![strs(&["split", "-r", "bbb", "-m", "Split: part 1"])]);
    m.jj_parallelize(ParallelizeSource::Selection);
    assert_eq!(queued(&m), vec![strs(&["parallelize", "bbb-::bbb"])]);
}

#[test]
fn commands_without_arguments() {
    let mut m = model();
    m.jj_redo();
    assert_eq!(queued(&m), vec![strs(&["redo"])]);
    m.jj_undo();
    assert_eq!(queued(&m), vec![strs(&["undo"])]);
    m.jj_status();
    assert_eq!(queued(&m), vec![strs(&["status"])]);
    m.jj_tug();
    assert_eq!(
        queued(&m),
        vec![strs(&["bookmark", "move", "--from", "heads(::@- & bookmarks())", "--to", "@"])]
    );
    m.jj_workspace_list();
    assert_eq!(queued(&m), vec![strs(&["workspace", "list"])]);
    m.jj_workspace_root();
    assert_eq!(queued(&m), vec![strs(&["workspace", "root"])]);
    m.jj_workspace_add("/tmp/ws");
    assert_eq!(queued(&m), vec![strs(&["workspace", "add", "/tmp/ws"])]);
    m.jj_new_after_trunk_sync();
    assert_eq!(queued(&m), vec![strs(&["git", "fetch"]), strs(&["new", "trunk()"])]);
    m.jj_new_on_branch();
    assert_eq!(
        queued(&m),
        vec![
            strs(&["new", "bbb"]),
            strs(&["bookmark", "move", "--from", "heads(::@- & bookmarks())", "--to", "@"])
        ]
    );
    m.jj_rebase_selected_branch_onto_trunk_sync();
    assert_eq!(
        queued(&m),
        vec![strs(&["git", "fetch"]), strs(&["rebase", "--branch", "bbb", "--onto", "trunk()"])]
    );
}

#[test]
fn squash_goes_by_the_description_and_view_by_the_file() {
    let mut m = model();
    m.jj_squash(SquashMode::Default);
    assert_eq!(queued(&m), vec![strs(&["squash", "-r", "bbb", "--use-destination-message"])]);
    assert!(!m.queued_jj_commands[0].interactive);
    m.jj_view(ViewMode::Default);
    assert_eq!(queued(&m), vec![strs(&["show", "bbb"])]);
    m.select_next_node();
    m.jj_view(ViewMode::Default);
    assert_eq!(queued(&m), vec![strs(&["diff", "-r", "bbb", "src/b.rs"])]);
    m.jj_view(ViewMode::FromSelection);
    assert_eq!(queued(&m), vec![strs(&["diff", "--from", "bbb", "--to", "@", "src/b.rs"])]);
    m.jj_view(ViewMode::FromTrunkToSelection);
    assert_eq!(queued(&m), vec![strs(&["diff", "--from", "trunk()", "--to", "bbb", "src/b.rs"])]);
    m.jj_view(ViewMode::ToSelection);
    assert_eq!(queued(&m), vec![strs(&["diff", "--from", "@", "--to", "bbb", "src/b.rs"])]);
    m.select_prev_node();
    m.select_prev_node();
    m.jj_squash(SquashMode::Default);
    assert_eq!(queued(&m), vec![strs(&["squash", "-r", "aaa"])]);
    assert!(m.queued_jj_commands[0].interactive);
}

#[test]
fn file_untrack_needs_a_file_of_the_working_copy() {
    let mut m = model();
    m.jj_file_untrack();
    assert_eq!(info(&m), "Invalid selection");
    m.select_prev_node();
    m.toggle_current_fold();
    m.select_next_node();
    assert_eq!(selected(&m), vec![0, 0]);
    m.jj_file_untrack();
    assert_eq!(info(&m), "Invalid selection");
    assert!(m.queued_jj_commands.is_empty());
}

#[test]
fn typing_a_then_a_resolves_abandon() {
    let mut m = model();
    let first = handle_key(&mut m, KeyEvent { code: Key::Char('a'), control: false });
    assert_eq!(first, None);
    assert!(m.has_pending_command_keys());
    let help = info(&m);
    assert!(help.starts_with(" Abandon "));
    assert!(help.contains("a Selection "));
    assert!(help.contains("b Selection (retain bookmarks)"));
    let second = handle_key(&mut m, KeyEvent { code: Key::Char('a'), control: false });
    assert_eq!(second, Some(Message::Abandon { mode: AbandonMode::Default }));
    assert!(!m.has_pending_command_keys());
}

#[test]
fn unbound_key_resets_the_pending_sequence() {
    let mut m = model();
    assert_eq!(m.handle_command_key(Key::Char('a')), None);
    assert_eq!(m.handle_command_key(Key::Char('z')), None);
    assert!(m.command_keys.is_empty());
    assert!(!m.has_pending_command_keys());
    assert!(info(&m).ends_with("\n\n Unbound suffix: 'z'"));
    assert_eq!(m.handle_command_key(Key::Char('a')), None);
    assert_eq!(m.command_keys, vec![Key::Char('a')]);
    assert_eq!(m.handle_command_key(Key::Insert), None);
    assert!(m.command_keys.is_empty());
    assert!(info(&m).ends_with("\n\n Unbound suffix: 'Insert'"));
    assert!(!info(&m).contains("'z'"));
    assert_eq!(m.handle_command_key(Key::Char('a')), None);
    assert_eq!(
        m.handle_command_key(Key::Char('b')),
        Some(Message::Abandon { mode: AbandonMode::RetainBookmarks })
    );
    assert!(m.command_keys.is_empty());
}

#[test]
fn unbound_key_after_an_unbound_key_replaces_the_report() {
    let mut m = model();
    assert_eq!(m.handle_command_key(Key::Char('a')), None);
    assert_eq!(m.handle_command_key(Key::Char('z')), None);
    assert_eq!(m.handle_command_key(Key::PageUp), None);
    assert!(m.command_keys.is_empty());
    assert!(info(&m).ends_with("\n\n Unbound suffix: 'Page Up'"));
    assert!(!info(&m).contains("'z'"));
    assert_eq!(m.handle_command_key(Key::Char(' ')), None);
    assert!(info(&m).ends_with("\n\n Unbound suffix: 'Space'"));
    assert_eq!(m.handle_command_key(Key::F(12)), None);
    assert!(info(&m).ends_with("\n\n Unbound suffix: 'F12'"));
}

#[test]
fn chained_action_fires_and_keeps_the_sequence_open() {
    let mut m = model();
    m.handle_command_key(Key::Char('s'));
    assert_eq!(m.handle_command_key(Key::Char('i')), Some(Message::SaveSelection));
    assert_eq!(m.command_keys, vec![Key::Char('s'), Key::Char('i')]);
    let help = info(&m);
    assert!(help.contains("Enter Select destination") || help.contains("Return Select destination"));
    assert_eq!(m.handle_command_key(Key::Enter), Some(Message::Squash { mode: SquashMode::Into }));
    assert!(m.command_keys.is_empty());
}

#[test]
fn squash_into_by_keys() {
    let mut m = model();
    m.select_next_node();
    press(&mut m, Key::Char('s'));
    press(&mut m, Key::Char('i'));
    assert_eq!(m.saved_change_id.as_deref(), Some("bbb"));
    press(&mut m, Key::Char('k'));
    press(&mut m, Key::Char('k'));
    press(&mut m, Key::Enter);
    assert_eq!(queued(&m), vec![strs(&["squash", "--from", "bbb", "--into", "aaa", "src/b.rs"])]);
}

#[test]
fn escape_in_the_second_step_clears_the_saved_selection() {
    let mut m = model();
    press(&mut m, Key::Char('r'));
    press(&mut m, Key::Char('b'));
    assert!(m.saved_change_id.is_some());
    assert!(m.has_pending_command_keys());
    press(&mut m, Key::Esc);
    assert!(m.saved_change_id.is_none());
    assert!(m.saved_tree_position.is_none());
    assert!(!m.has_pending_command_keys());
    assert!(m.info_list.is_none());
}

#[test]
fn fixed_keys_stand_for_their_messages() {
    let mut m = model();
    let mut key = |code: Key, control: bool| handle_key(&mut m, KeyEvent { code, control });
    assert_eq!(key(Key::Char('q'), false), Some(Message::Quit));
    assert_eq!(key(Key::Char('c'), true), Some(Message::Quit));
    assert_eq!(key(Key::Down, false), Some(Message::SelectNextNode));
    assert_eq!(key(Key::Char('j'), false), Some(Message::SelectNextNode));
    assert_eq!(key(Key::Char('n'), true), Some(Message::SelectNextNode));
    assert_eq!(key(Key::Up, false), Some(Message::SelectPrevNode));
    assert_eq!(key(Key::Char('p'), true), Some(Message::SelectPrevNode));
    assert_eq!(key(Key::PageDown, false), Some(Message::ScrollDownPage));
    assert_eq!(key(Key::PageUp, false), Some(Message::ScrollUpPage));
    assert_eq!(key(Key::Char('h'), false), Some(Message::SelectPrevSiblingNode));
    assert_eq!(key(Key::Right, false), Some(Message::SelectNextSiblingNode));
    assert_eq!(key(Key::Char('K'), false), Some(Message::SelectParentNode));
    assert_eq!(key(Key::Char(' '), false), Some(Message::Refresh));
    assert_eq!(key(Key::Char('r'), true), Some(Message::Refresh));
    assert_eq!(key(Key::Tab, false), Some(Message::ToggleLogListFold));
    assert_eq!(key(Key::Esc, false), Some(Message::Clear));
    assert_eq!(key(Key::Char('@'), false), Some(Message::SelectCurrentWorkingCopy));
    assert_eq!(key(Key::Char('L'), false), Some(Message::SetRevset));
    assert_eq!(key(Key::Char('I'), false), Some(Message::ToggleIgnoreImmutable));
    assert_eq!(key(Key::Char('?'), false), Some(Message::ShowHelp));
    assert_eq!(key(Key::Char('t'), false), Some(Message::Status));
}

#[test]
fn keys_go_to_the_text_input_while_it_is_open() {
    let mut m = model();
    m.set_revset();
    let mut key = |code: Key, control: bool| handle_key(&mut m, KeyEvent { code, control });
    assert_eq!(key(Key::Char('q'), false), Some(Message::TextInputChar { ch: 'q' }));
    assert_eq!(key(Key::Enter, false), Some(Message::TextInputSubmit));
    assert_eq!(key(Key::Esc, false), Some(Message::TextInputCancel));
    assert_eq!(key(Key::Backspace, false), Some(Message::TextInputBackspace));
    assert_eq!(key(Key::Char('u'), true), Some(Message::TextInputBackspace));
    assert_eq!(key(Key::Delete, false), Some(Message::TextInputDelete));
    assert_eq!(key(Key::Char('k'), true), Some(Message::TextInputDelete));
    assert_eq!(key(Key::Left, false), Some(Message::TextInputMoveLeft));
    assert_eq!(key(Key::Char('b'), true), Some(Message::TextInputMoveLeft));
    assert_eq!(key(Key::Char('f'), true), Some(Message::TextInputMoveRight));
    assert_eq!(key(Key::Home, false), Some(Message::TextInputMoveHome));
    assert_eq!(key(Key::Char('a'), true), Some(Message::TextInputMoveHome));
    assert_eq!(key(Key::Char('e'), true), Some(Message::TextInputMoveEnd));
    assert_eq!(key(Key::Tab, false), None);
}

#[test]
fn keys_go_to_the_popup_while_it_is_open() {
    let mut m = model();
    m.open_popup(Popup::BookmarkDelete { bookmarks: strs(&["main"]) });
    let mut key = |code: Key| handle_key(&mut m, KeyEvent { code, control: false });
    assert_eq!(key(Key::Enter), Some(Message::PopupSelect));
    assert_eq!(key(Key::Esc), Some(Message::PopupCancel));
    assert_eq!(key(Key::Backspace), Some(Message::PopupFilterBackspace));
    assert_eq!(key(Key::Down), Some(Message::PopupNext));
    assert_eq!(key(Key::Up), Some(Message::PopupPrev));
    assert_eq!(key(Key::Char('q')), Some(Message::PopupFilterChar { ch: 'q' }));
    assert_eq!(key(Key::Char('j')), Some(Message::PopupFilterChar { ch: 'j' }));
    assert_eq!(key(Key::Char('k')), Some(Message::PopupFilterChar { ch: 'k' }));
    assert_eq!(key(Key::Tab), None);
}

#[test]
fn mouse_events_stand_for_their_messages() {
    let at = |kind| MouseEvent { kind, row: 3, column: 9 };
    assert_eq!(handle_mouse(at(MouseEventKind::ScrollDown)), Some(Message::ScrollDown));
    assert_eq!(handle_mouse(at(MouseEventKind::ScrollUp)), Some(Message::ScrollUp));
    assert_eq!(
        handle_mouse(at(MouseEventKind::LeftDown)),
        Some(Message::LeftMouseClick { row: 3, column: 9 })
    );
    assert_eq!(
        handle_mouse(at(MouseEventKind::RightDown)),
        Some(Message::RightMouseClick { row: 3, column: 9 })
    );
    assert_eq!(handle_mouse(at(MouseEventKind::Other)), None);
}

#[test]
fn text_is_edited_at_the_cursor() {
    let mut m = model();
    m.text_input_char('a');
    m.text_input_char('c');
    m.text_input_move_left();
    m.text_input_char('\u{e9}');
    assert_eq!(m.text_input, "a\u{e9}c");
    assert_eq!(m.text_cursor, 2);
    m.text_input_backspace();
    assert_eq!((m.text_input.as_str(), m.text_cursor), ("ac", 1));
    m.text_input_delete();
    assert_eq!((m.text_input.as_str(), m.text_cursor), ("a", 1));
    m.text_input_delete();
    m.text_input_move_right();
    assert_eq!((m.text_input.as_str(), m.text_cursor), ("a", 1));
    m.text_input_move_home();
    m.text_input_backspace();
    m.text_input_move_left();
    assert_eq!((m.text_input.as_str(), m.text_cursor), ("a", 0));
    m.text_input_move_end();
    assert_eq!(m.text_cursor, 1);
    m.text_cursor = 40;
    m.text_input_char('z');
    assert_eq!((m.text_input.as_str(), m.text_cursor), ("az", 2));
    m.text_input_cancel();
    assert_eq!((m.text_input.as_str(), m.text_cursor), ("", 0));
    assert_eq!(m.text_input_location, TextInputLocation::Inactive);
}

#[test]
fn revset_is_edited_inline_and_submitted_with_the_loaded_log() {
    let mut m = model();
    m.set_revset();
    assert_eq!(m.text_input, "all()");
    assert_eq!(m.text_cursor, 5);
    assert_eq!(m.text_input_location, TextInputLocation::Revset { original: "all()".to_string() });
    m.text_input_backspace();
    m.text_input_backspace();
    m.text_input_backspace();
    m.text_input_char('@');
    assert!(matches!(m.text_input_submit(), Effect::SubmitRevset));
    m.revset_edit_submit(Ok(vec![commit("zzz", true, None, vec![])]));
    assert_eq!(m.revset, "al@");
    assert_eq!(info(&m), "Revset set to 'al@'");
    assert_eq!(m.text_input_location, TextInputLocation::Inactive);
    assert_eq!(m.log_list.len(), 1);
}

#[test]
fn revset_stays_where_the_log_cannot_be_loaded() {
    let mut m = model();
    m.set_revset();
    m.text_input_char('!');
    m.revset_edit_submit(Err("Error: \u{1b}[1mbad revset\u{1b}[0m".to_string()));
    assert_eq!(m.revset, "all()");
    assert_eq!(info(&m), "Error: bad revset");
    assert_eq!(m.log_list.len(), 5);
    assert_eq!(m.text_input, "");
    m.set_revset();
    m.revset_edit_submit(Ok(vec![file("stray", vec![])]));
    assert_eq!(m.revset, "all()");
    assert_eq!(info(&m), "The log does not have the expected shape");
    assert_eq!(m.log_list.len(), 5);
}

#[test]
fn refresh_counts_its_dots() {
    let mut m = model();
    assert!(matches!(handle_msg(&mut m, Message::Refresh, 0), Effect::Refresh));
    m.save_selection();
    m.refresh(commits()).unwrap();
    assert_eq!(info(&m), "Refreshed");
    assert!(m.saved_change_id.is_none());
    m.refresh(commits()).unwrap();
    assert_eq!(info(&m), "Refreshed...");
    m.refresh(commits()).unwrap();
    assert_eq!(info(&m), "Refreshed......");
    m.cancelled();
    assert_eq!(info(&m), "Cancelled");
    m.refresh(commits()).unwrap();
    assert_eq!(info(&m), "Refreshed");
    assert_eq!(m.refresh(vec![file("x", vec![])]), Err(LogTreeError::Malformed));
}

#[test]
fn bookmark_is_created_from_the_inline_edit() {
    let mut m = model();
    m.bookmark_edit_start();
    assert_eq!(m.text_input_location, TextInputLocation::Bookmark { change_id: "bbb".to_string() });
    m.text_input_char('f');
    m.text_input_char('x');
    assert!(matches!(m.text_input_submit(), Effect::Nothing));
    assert_eq!(queued(&m), vec![strs(&["bookmark", "create", "-r", "bbb", "fx"])]);
    assert_eq!(m.text_input_location, TextInputLocation::Inactive);
    assert_eq!(m.text_input, "");
    m.bookmark_edit_submit();
    assert_eq!(queued(&m).len(), 1);
}

#[test]
fn description_is_edited_from_the_existing_one() {
    let mut m = model();
    m.select_prev_node();
    m.description_edit_start(DescribeMode::IgnoreImmutable);
    assert_eq!(m.text_input, "first");
    assert_eq!(m.text_cursor, 5);
    m.text_input_char('!');
    m.text_input_submit();
    assert_eq!(
        queued(&m),
        vec![strs(&["describe", "-r", "aaa", "-m", "first!", "--ignore-immutable"])]
    );
    m.select_current_working_copy();
    m.description_edit_start(DescribeMode::Default);
    assert_eq!(m.text_input, "");
    m.description_edit_submit();
    assert_eq!(queued(&m), vec![strs(&["describe", "-r", "bbb", "-m", ""])]);
}

#[test]
fn prompts_lead_to_invocations() {
    let mut m = model();
    m.jj_metaedit(MetaeditAction::SetAuthor);
    assert_eq!(
        m.text_input_location,
        TextInputLocation::Popup {
            prompt: "Set Author",
            placeholder: "Name <email@example.com>",
            action: TextPromptAction::MetaeditSetAuthor { change_id: "bbb".to_string() },
        }
    );
    m.text_input_char('A');
    m.text_input_submit();
    assert_eq!(queued(&m), vec![strs(&["metaedit", "--author", "A", "bbb"])]);
    m.jj_metaedit(MetaeditAction::SetAuthorTimestamp);
    m.text_input_char('1');
    m.text_input_submit();
    assert_eq!(queued(&m), vec![strs(&["metaedit", "--author-timestamp", "1", "bbb"])]);
    m.jj_metaedit(MetaeditAction::UpdateChangeId);
    assert_eq!(queued(&m), vec![strs(&["metaedit", "--update-change-id", "bbb"])]);
    m.jj_metaedit(MetaeditAction::UpdateAuthorTimestamp);
    assert_eq!(queued(&m), vec![strs(&["metaedit", "--update-author-timestamp", "bbb"])]);
    m.jj_metaedit(MetaeditAction::UpdateAuthor);
    assert_eq!(queued(&m), vec![strs(&["metaedit", "--update-author", "bbb"])]);
    m.jj_metaedit(MetaeditAction::ForceRewrite);
    assert_eq!(queued(&m), vec![strs(&["metaedit", "--force-rewrite", "bbb"])]);
    m.jj_next_prev(NextPrevDirection::Next, NextPrevMode::Edit, true);
    m.text_input_char('3');
    m.text_input_submit();
    assert_eq!(queued(&m), vec![strs(&["next", "--edit", "3"])]);
    m.jj_next_prev(NextPrevDirection::Prev, NextPrevMode::Conflict, false);
    assert_eq!(queued(&m), vec![strs(&["prev", "--conflict"])]);
    m.jj_next_prev(NextPrevDirection::Prev, NextPrevMode::NoEdit, false);
    assert_eq!(queued(&m), vec![strs(&["prev", "--no-edit"])]);
    m.jj_next_prev(NextPrevDirection::Next, NextPrevMode::Default, false);
    assert_eq!(queued(&m), vec![strs(&["next"])]);
    m.jj_parallelize(ParallelizeSource::Revset);
    m.text_input_char('x');
    m.text_input_submit();
    assert_eq!(queued(&m), vec![strs(&["parallelize", "x"])]);
    m.workspace_rename_current_start();
    m.text_input_char('w');
    m.text_input_submit();
    assert_eq!(queued(&m), vec![strs(&["workspace", "rename", "w"])]);
    m.workspace_add_start("/home/u");
    assert_eq!((m.text_input.as_str(), m.text_cursor), ("/home/u", 7));
    m.text_input_char('/');
    m.text_input_char('w');
    m.text_input_submit();
    assert_eq!(queued(&m), vec![strs(&["workspace", "add", "/home/u/w"])]);
    assert!(matches!(m.text_input_submit(), Effect::Nothing));
}

fn query(effect: Effect) -> (Vec<String>, Query) {
    match effect {
        Effect::Query(cmd, query) => {
            assert!(!cmd.sync);
            (cmd.args, query)
        }
        other => panic!("no query: {other:?}"),
    }
}

#[test]
fn listing_commands_ask_the_engine_first() {
    let mut m = model();
    assert_eq!(query(m.jj_bookmark_delete()), (strs(&["bookmark", "list"]), Query::BookmarkDelete));
    assert_eq!(
        query(m.jj_bookmark_forget(true)),
        (
            strs(&["bookmark", "list", "-T", "name", "--all-remotes"]),
            Query::BookmarkForget { include_remotes: true }
        )
    );
    assert_eq!(
        query(m.jj_bookmark_forget(false)),
        (strs(&["bookmark", "list", "-T", "name"]), Query::BookmarkForget { include_remotes: false })
    );
    assert_eq!(query(m.jj_bookmark_rename()), (strs(&["bookmark", "list"]), Query::BookmarkRename));
    assert_eq!(query(m.jj_bookmark_set()), (strs(&["bookmark", "list"]), Query::BookmarkSet));
    assert_eq!(
        query(m.jj_bookmark_track()),
        (strs(&["bookmark", "list", "--all-remotes"]), Query::BookmarkTrack)
    );
    assert_eq!(
        query(m.jj_bookmark_untrack()),
        (strs(&["bookmark", "list", "--all-remotes"]), Query::BookmarkUntrack)
    );
    assert_eq!(query(m.jj_file_track()), (strs(&["file", "list", "--untracked"]), Query::FileTrack));
    assert_eq!(
        query(m.jj_git_fetch(GitFetchMode::Branch)),
        (strs(&["git", "remote", "list"]), Query::GitFetchRemotes { select_for_branches: true })
    );
    assert_eq!(
        query(m.jj_git_fetch(GitFetchMode::Remote)),
        (strs(&["git", "remote", "list"]), Query::GitFetchRemotes { select_for_branches: false })
    );
    assert_eq!(
        query(m.jj_git_push(GitPushMode::Named)),
        (
            strs(&["bookmark", "list"]),
            Query::GitPushBookmark { named: true, change_id: "bbb".to_string() }
        )
    );
    assert_eq!(
        query(m.jj_git_push(GitPushMode::Bookmark)),
        (strs(&["bookmark", "list"]), Query::GitPushBookmark { named: false, change_id: String::new() })
    );
    assert_eq!(
        query(m.jj_tug_and_git_push()),
        (
            strs(&["bookmark", "list", "-r", "heads(::@- & bookmarks())", "-T", "name"]),
            Query::TugAndGitPush
        )
    );
    assert_eq!(query(m.jj_workspace_forget()), (strs(&["workspace", "list"]), Query::WorkspaceForget));
    assert_eq!(
        query(m.jj_workspace_update_stale_start()),
        (strs(&["workspace", "list"]), Query::WorkspaceUpdateStale)
    );
    assert!(m.queued_jj_commands.is_empty());
}

#[test]
fn fetch_and_push_without_a_listing() {
    let mut m = model();
    m.jj_git_fetch(GitFetchMode::Default);
    assert_eq!(queued(&m), vec![strs(&["git", "fetch"])]);
    m.jj_git_fetch(GitFetchMode::AllRemotes);
    assert_eq!(queued(&m), vec![strs(&["git", "fetch", "--all-remotes"])]);
    m.jj_git_fetch(GitFetchMode::TrackedBookmarks);
    assert_eq!(queued(&m), vec![strs(&["git", "fetch", "--tracked"])]);
    m.jj_git_push(GitPushMode::Default);
    assert_eq!(queued(&m), vec![strs(&["git", "push"])]);
    m.jj_git_push(GitPushMode::All);
    assert_eq!(queued(&m), vec![strs(&["git", "push", "--all"])]);
    m.jj_git_push(GitPushMode::TrackedBookmarks);
    assert_eq!(queued(&m), vec![strs(&["git", "push", "--tracked"])]);
    m.jj_git_push(GitPushMode::Deleted);
    assert_eq!(queued(&m), vec![strs(&["git", "push", "--deleted"])]);
    m.jj_git_push(GitPushMode::Revision);
    assert_eq!(queued(&m), vec![strs(&["git", "push", "-r", "bbb"])]);
    m.jj_git_push(GitPushMode::Change);
    assert_eq!(queued(&m), vec![strs(&["git", "push", "-c", "bbb"])]);
}

#[test]
fn listing_opens_the_popup_of_its_query() {
    let mut m = model();
    m.query_finished(Query::BookmarkDelete, "main: a\ndev: b\n");
    assert_eq!(m.current_popup, Some(Popup::BookmarkDelete { bookmarks: strs(&["main", "dev"]) }));
    assert_eq!(m.current_popup.as_ref().unwrap().title(), "Delete Bookmark");
    assert_eq!(m.current_popup.as_ref().unwrap().items(), &strs(&["main", "dev"]));
    m.query_finished(Query::BookmarkUntrack, "main: a\nmain@origin: b\n");
    assert_eq!(
        m.current_popup,
        Some(Popup::BookmarkUntrack { tracked_bookmarks: strs(&["main@origin"]) })
    );
    m.query_finished(Query::GitFetchRemotes { select_for_branches: true }, "origin url\n");
    assert_eq!(
        m.current_popup,
        Some(Popup::GitFetchRemote { remotes: strs(&["origin"]), select_for_branches: true })
    );
    m.query_finished(Query::GitPushBookmark { named: true, change_id: "bbb".to_string() }, "x: 1\n");
    assert_eq!(
        m.current_popup,
        Some(Popup::GitPushBookmark {
            bookmarks: strs(&["x"]),
            change_id: "bbb".to_string(),
            is_named_mode: true
        })
    );
    m.query_finished(Query::WorkspaceForget, "default: /x\n");
    assert_eq!(m.current_popup, Some(Popup::WorkspaceForget { workspaces: strs(&["default"]) }));
    assert!(m.info_list.is_none());
}

#[test]
fn empty_listing_says_so() {
    let mut m = model();
    m.query_finished(Query::BookmarkDelete, "\n");
    assert_eq!(info(&m), "No bookmarks to delete");
    assert!(m.current_popup.is_none());
    m.query_finished(Query::BookmarkForget { include_remotes: true }, "");
    assert_eq!(info(&m), "No bookmarks to forget (including remotes)");
    m.query_finished(Query::BookmarkForget { include_remotes: false }, "");
    assert_eq!(info(&m), "No bookmarks to forget");
    m.query_finished(Query::BookmarkSet, "");
    assert_eq!(info(&m), "No bookmarks to set");
    m.query_finished(Query::BookmarkTrack, "");
    assert_eq!(info(&m), "No remote bookmarks to track");
    m.query_finished(Query::BookmarkUntrack, "main: a\n");
    assert_eq!(info(&m), "No tracked remote bookmarks to untrack");
    m.query_finished(Query::FileTrack, "");
    assert_eq!(info(&m), "No untracked files to track");
    m.query_finished(Query::GitFetchRemotes { select_for_branches: false }, "");
    assert_eq!(info(&m), "No remotes configured");
    m.query_finished(Query::GitFetchBranches { remote: "origin".to_string() }, "");
    assert_eq!(info(&m), "No branches found on remote 'origin'");
    m.query_finished(Query::GitPushBookmark { named: false, change_id: String::new() }, "");
    assert_eq!(info(&m), "No bookmarks to push");
    m.query_finished(Query::TugAndGitPush, "");
    assert_eq!(info(&m), "No bookmarks to tug and push");
    m.query_finished(Query::WorkspaceForget, "");
    assert_eq!(info(&m), "No workspaces to forget");
    m.query_finished(Query::WorkspaceUpdateStale, "");
    assert_eq!(info(&m), "No workspaces to update");
    m.info_list = None;
    m.query_finished(Query::BookmarkRename, "");
    assert!(m.info_list.is_none());
    assert!(m.current_popup.is_none());
}

#[test]
fn tug_and_push_queues_a_push_for_each_bookmark() {
    let mut m = model();
    m.query_finished(Query::TugAndGitPush, "main\ndev\n");
    assert_eq!(
        queued(&m),
        vec![
            strs(&["bookmark", "move", "--from", "heads(::@- & bookmarks())", "--to", "@"]),
            strs(&["git", "push", "-b", "main"]),
            strs(&["git", "push", "-b", "dev"]),
        ]
    );
}

#[test]
fn popup_filters_and_highlights() {
    let mut m = model();
    m.open_popup(Popup::BookmarkSet { bookmarks: strs(&["Main", "dev", "domain"]) });
    m.popup_next();
    m.popup_next();
    m.popup_next();
    assert_eq!(m.popup_selection, 2);
    m.popup_prev();
    assert_eq!(m.popup_selection, 1);
    m.popup_filter_char('M');
    m.popup_filter_char('A');
    assert_eq!((m.popup_filter.as_str(), m.popup_selection), ("MA", 0));
    m.popup_next();
    m.popup_next();
    assert_eq!(m.popup_selection, 1);
    assert_eq!(m.get_popup_selection().as_deref(), Some("domain"));
    m.popup_filter_backspace();
    assert_eq!((m.popup_filter.as_str(), m.popup_selection), ("M", 0));
    m.popup_filter_backspace();
    m.popup_filter_backspace();
    assert_eq!(m.popup_filter, "");
    m.popup_prev();
    assert_eq!(m.popup_selection, 0);
    m.popup_cancel();
    assert!(m.current_popup.is_none());
    assert_eq!(m.get_popup_selection(), None);
}

#[test]
fn popup_choice_queues_the_invocation() {
    let choose = |popup: Popup, filter: &str| -> Model {
        let mut m = model();
        m.open_popup(popup);
        for c in filter.chars() {
            m.popup_filter_char(c);
        }
        assert!(matches!(m.popup_select(), Effect::Nothing));
        assert!(m.current_popup.is_none());
        assert_eq!(m.popup_filter, "");
        m
    };
    let names = strs(&["main", "dev"]);
    let m = choose(Popup::BookmarkDelete { bookmarks: names.clone() }, "d");
    assert_eq!(queued(&m), vec![strs(&["bookmark", "delete", "dev"])]);
    let m = choose(Popup::BookmarkForget { bookmarks: names.clone(), include_remotes: true }, "");
    assert_eq!(queued(&m), vec![strs(&["bookmark", "forget", "--include-remotes", "main"])]);
    let m = choose(Popup::BookmarkForget { bookmarks: names.clone(), include_remotes: false }, "");
    assert_eq!(queued(&m), vec![strs(&["bookmark", "forget", "main"])]);
    let m = choose(Popup::BookmarkSet { bookmarks: names.clone() }, "");
    assert_eq!(queued(&m), vec![strs(&["bookmark", "set", "main", "-r", "bbb"])]);
    let m = choose(Popup::BookmarkTrack { remote_bookmarks: names.clone() }, "");
    assert_eq!(queued(&m), vec![strs(&["bookmark", "track", "main"])]);
    let m = choose(Popup::BookmarkUntrack { tracked_bookmarks: names.clone() }, "");
    assert_eq!(queued(&m), vec![strs(&["bookmark", "untrack", "main"])]);
    let m = choose(Popup::FileTrack { untracked_files: names.clone() }, "");
    assert_eq!(queued(&m), vec![strs(&["file", "track", "main"])]);
    let m = choose(Popup::GitFetchRemote { remotes: names.clone(), select_for_branches: false }, "");
    assert_eq!(queued(&m), vec![strs(&["git", "fetch", "--remote", "main"])]);
    let m = choose(
        Popup::GitFetchRemoteBranches { remote: "origin".to_string(), branches: names.clone() },
        "",
    );
    assert_eq!(queued(&m), vec![strs(&["git", "fetch", "--remote", "origin", "--branch", "main"])]);
    let m = choose(
        Popup::GitPushBookmark { bookmarks: names.clone(), change_id: "bbb".to_string(), is_named_mode: true },
        "",
    );
    assert_eq!(queued(&m), vec![strs(&["git", "push", "--named", "main=bbb"])]);
    let m = choose(
        Popup::GitPushBookmark { bookmarks: names.clone(), change_id: String::new(), is_named_mode: false },
        "",
    );
    assert_eq!(queued(&m), vec![strs(&["git", "push", "-b", "main"])]);
    let m = choose(Popup::WorkspaceForget { workspaces: names.clone() }, "");
    assert_eq!(queued(&m), vec![strs(&["workspace", "forget", "main"])]);
    let m = choose(Popup::WorkspaceUpdateStale { workspaces: names.clone() }, "");
    assert_eq!(queued(&m), vec![strs(&["workspace", "update-stale"])]);
    let m = choose(Popup::BookmarkDelete { bookmarks: names.clone() }, "zzz");
    assert!(m.queued_jj_commands.is_empty());
}

#[test]
fn popup_choice_leads_on_to_a_prompt_or_a_query() {
    let mut m = model();
    m.open_popup(Popup::BookmarkRenameSelect { bookmarks: strs(&["main"]) });
    m.popup_select();
    assert_eq!(
        m.text_input_location,
        TextInputLocation::Popup {
            prompt: "Enter New Bookmark Name",
            placeholder: "new-bookmark-name",
            action: TextPromptAction::BookmarkRenameSubmit { old_name: "main".to_string() },
        }
    );
    m.text_input_char('t');
    m.text_input_submit();
    assert_eq!(queued(&m), vec![strs(&["bookmark", "rename", "main", "t"])]);
    m.open_popup(Popup::GitFetchRemote { remotes: strs(&["origin"]), select_for_branches: true });
    let (args, query) = query(m.popup_select());
    assert_eq!(args, strs(&["bookmark", "list", "--remote", "origin"]));
    assert_eq!(query, Query::GitFetchBranches { remote: "origin".to_string() });
    m.query_finished(query, "main@origin: a\n");
    assert_eq!(
        m.current_popup,
        Some(Popup::GitFetchRemoteBranches {
            remote: "origin".to_string(),
            branches: strs(&["main@origin"])
        })
    );
}

#[test]
fn popup_titles() {
    let titles: Vec<&str> = vec![
        Popup::BookmarkDelete { bookmarks: vec![] }.title(),
        Popup::BookmarkForget { bookmarks: vec![], include_remotes: false }.title(),
        Popup::BookmarkRenameSelect { bookmarks: vec![] }.title(),
        Popup::BookmarkSet { bookmarks: vec![] }.title(),
        Popup::BookmarkTrack { remote_bookmarks: vec![] }.title(),
        Popup::BookmarkUntrack { tracked_bookmarks: vec![] }.title(),
        Popup::FileTrack { untracked_files: vec![] }.title(),
        Popup::GitFetchRemote { remotes: vec![], select_for_branches: false }.title(),
        Popup::GitFetchRemoteBranches { remote: String::new(), branches: vec![] }.title(),
        Popup::GitPushBookmark { bookmarks: vec![], change_id: String::new(), is_named_mode: false }
            .title(),
    ];
    assert_eq!(
        titles,
        vec![
            "Delete Bookmark",
            "Forget Bookmark",
            "Select Bookmark to Rename",
            "Set Bookmark",
            "Track Remote Bookmark",
            "Untrack Remote Bookmark",
            "Track File",
            "Select Remote",
            "Select Branch to Fetch",
            "Select Bookmark to Push",
        ]
    );
    let popup = Popup::GitFetchRemoteBranches { remote: "o".to_string(), branches: strs(&["b"]) };
    assert_eq!(popup.items(), &strs(&["b"]));
}

#[test]
fn enter_on_a_commit_edits_it_and_on_a_file_opens_the_editor() {
    let mut m = model();
    assert!(matches!(m.enter_pressed(), Effect::Nothing));
    assert_eq!(queued(&m), vec![strs(&["edit", "bbb"])]);
    m.select_next_node();
    match m.enter_pressed() {
        Effect::OpenEditor(request) => {
            assert_eq!(request.change_id, "bbb");
            assert_eq!(request.file_path, "src/b.rs");
            assert_eq!(request.file_arg, "src/b.rs");
            assert!(request.working_copy);
        }
        other => panic!("{other:?}"),
    }
    m.toggle_current_fold();
    m.select_next_node();
    m.toggle_current_fold();
    m.select_next_node();
    assert_eq!(selected(&m), vec![1, 0, 0, 0]);
    match m.enter_pressed() {
        Effect::OpenEditor(request) => assert_eq!(request.file_arg, "src/b.rs:12"),
        other => panic!("{other:?}"),
    }
    m.select_next_node();
    match m.enter_pressed() {
        Effect::OpenEditor(request) => assert_eq!(request.file_arg, "src/b.rs"),
        other => panic!("{other:?}"),
    }
    m.select_current_working_copy();
    m.select_prev_node();
    m.toggle_current_fold();
    m.select_next_node();
    match m.enter_pressed() {
        Effect::OpenEditor(request) => {
            assert_eq!(request.change_id, "aaa");
            assert!(!request.working_copy);
        }
        other => panic!("{other:?}"),
    }
}

#[test]
fn lines_are_counted_node_by_node() {
    let m = model();
    assert_eq!(m.line_dist_to_dest_node(0, 0, ScrollDirection::Down), 0);
    assert_eq!(m.line_dist_to_dest_node(1, 0, ScrollDirection::Down), 0);
    assert_eq!(m.line_dist_to_dest_node(2, 0, ScrollDirection::Down), 1);
    assert_eq!(m.line_dist_to_dest_node(4, 0, ScrollDirection::Down), 2);
    assert_eq!(m.line_dist_to_dest_node(5, 0, ScrollDirection::Down), 3);
    assert_eq!(m.line_dist_to_dest_node(100, 0, ScrollDirection::Down), 4);
    assert_eq!(m.line_dist_to_dest_node(100, 4, ScrollDirection::Up), 0);
    assert_eq!(m.line_dist_to_dest_node(1, 4, ScrollDirection::Up), 4);
    assert_eq!(m.line_dist_to_dest_node(2, 4, ScrollDirection::Up), 3);
    assert_eq!(m.line_dist_to_dest_node(3, 4, ScrollDirection::Up), 2);
    assert_eq!(m.line_dist_to_dest_node(3, 9, ScrollDirection::Down), 9);
}

#[test]
fn pages_scroll_the_top_and_the_cursor() {
    let mut m = model();
    m.log_list_layout = Rect { x: 0, y: 2, width: 80, height: 4 };
    m.scroll_down_page();
    assert_eq!(m.log_list_state, ListState { offset: 2, selected: Some(3) });
    m.scroll_down_page();
    assert_eq!(m.log_list_state, ListState { offset: 2, selected: Some(4) });
    m.scroll_up_page();
    assert_eq!(m.log_list_state, ListState { offset: 0, selected: Some(2) });
    m.scroll_up_page();
    assert_eq!(m.log_list_state, ListState { offset: 0, selected: Some(0) });
}

#[test]
fn wheel_scrolls_by_one_node() {
    let mut m = model();
    m.log_list_layout = Rect { x: 0, y: 2, width: 80, height: 4 };
    m.log_list_state = ListState { offset: 0, selected: Some(0) };
    m.scroll_down_once();
    assert_eq!(m.log_list_state, ListState { offset: 1, selected: Some(1) });
    m.log_list_state = ListState { offset: 1, selected: Some(3) };
    m.scroll_down_once();
    assert_eq!(m.log_list_state, ListState { offset: 2, selected: Some(3) });
    m.scroll_up_once();
    assert_eq!(m.log_list_state, ListState { offset: 1, selected: Some(2) });
    m.log_list_state = ListState { offset: 0, selected: Some(3) };
    m.scroll_up_once();
    assert_eq!(m.log_list_state, ListState { offset: 0, selected: Some(3) });
}

#[test]
fn click_selects_the_node_on_the_row() {
    let mut m = model();
    m.log_list_layout = Rect { x: 1, y: 2, width: 80, height: 10 };
    assert!(matches!(m.handle_mouse_click(5, 4, 1000), Effect::Nothing));
    assert_eq!(selected(&m), vec![1]);
    assert!(matches!(m.handle_mouse_click(6, 4, 2000), Effect::Nothing));
    assert_eq!(selected(&m), vec![1, 0]);
    assert!(matches!(m.handle_mouse_click(1, 4, 3000), Effect::Nothing));
    assert_eq!(selected(&m), vec![1, 0]);
    assert!(matches!(m.handle_mouse_click(2, 0, 4000), Effect::Nothing));
    assert_eq!(selected(&m), vec![1, 0]);
    assert!(matches!(m.handle_mouse_click(11, 4, 5000), Effect::Nothing));
    assert_eq!(selected(&m), vec![2]);
    assert!(matches!(m.handle_mouse_click(12, 4, 6000), Effect::Nothing));
    assert_eq!(selected(&m), vec![2]);
    assert_eq!(m.last_click_time, Some(6000));
    assert_eq!(m.last_click_pos, Some((12, 4)));
}

#[test]
fn double_click_counts_as_enter() {
    let mut m = model();
    m.log_list_layout = Rect { x: 0, y: 0, width: 80, height: 10 };
    m.handle_mouse_click(4, 4, 1000);
    assert_eq!(selected(&m), vec![1, 0]);
    assert!(matches!(m.handle_mouse_click(4, 4, 1299), Effect::OpenEditor(_)));
    assert!(matches!(m.handle_mouse_click(4, 4, 1599), Effect::Nothing));
    assert!(matches!(m.handle_mouse_click(4, 5, 1600), Effect::Nothing));
}

#[test]
fn right_click_selects_and_toggles() {
    let mut m = model();
    m.log_list_layout = Rect { x: 0, y: 0, width: 80, height: 10 };
    let event = Event::Mouse(MouseEvent { kind: MouseEventKind::RightDown, row: 0, column: 0 });
    update(&mut m, event, 10);
    assert_eq!(selected(&m), vec![0]);
    assert_eq!(m.log_list.len(), 6);
}

#[test]
fn messages_are_applied_to_the_model() {
    let mut m = model();
    handle_msg(&mut m, Message::SelectNextNode, 0);
    assert_eq!(selected(&m), vec![1, 0]);
    handle_msg(&mut m, Message::ToggleLogListFold, 0);
    assert_eq!(m.log_list.len(), 6);
    handle_msg(&mut m, Message::SelectParentNode, 0);
    assert_eq!(selected(&m), vec![1]);
    handle_msg(&mut m, Message::ToggleIgnoreImmutable, 0);
    assert!(m.global_args.ignore_immutable);
    handle_msg(&mut m, Message::Abandon { mode: AbandonMode::Default }, 0);
    assert_eq!(queued(&m), vec![strs(&["abandon", "bbb"])]);
    assert!(m.queued_jj_commands[0].global_args.ignore_immutable);
    handle_msg(&mut m, Message::ShowHelp, 0);
    assert!(info(&m).starts_with(" Commands "));
    assert!(matches!(handle_msg(&mut m, Message::BookmarkDelete, 0), Effect::Query(..)));
    handle_msg(&mut m, Message::SetRevset, 0);
    assert_eq!(m.text_input, "all()");
    assert!(matches!(handle_msg(&mut m, Message::TextInputSubmit, 0), Effect::SubmitRevset));
    handle_msg(&mut m, Message::TextInputCancel, 0);
    handle_msg(&mut m, Message::Clear, 0);
    assert!(m.info_list.is_none());
    assert!(m.queued_jj_commands.is_empty());
    handle_msg(&mut m, Message::Quit, 0);
    assert_eq!(m.state, State::Quit);
}
