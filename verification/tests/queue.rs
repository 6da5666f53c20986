use jjdag::log_tree::{LogTreeNode, NodeKind};
use jjdag::model::{CommandOutcome, Model, QueueStep};
use jjdag::shell_out::{GlobalArgs, JjCommand, JjCommandError};
use jjdag::text::{Line, TextColor, TextStyle};

fn commit(id: &str, working_copy: bool) -> LogTreeNode {
    LogTreeNode {
        kind: NodeKind::Commit {
            change_id: id.to_string(),
            current_working_copy: working_copy,
            description_first_line: None,
        },
        text: jjdag::text::Text::raw(id),
        unfolded: false,
        flat_log_idx: 0,
        children: vec![],
    }
}

fn model() -> Model {
    Model::new(
        "/repo".to_string(),
        "all()".to_string(),
        None,
        vec![commit("aaa", false), commit("bbb", true), commit("ccc", false)],
    )
    .unwrap()
}

fn args() -> GlobalArgs {
    GlobalArgs { repository: "/repo".to_string(), ignore_immutable: false }
}

fn info(model: &Model) -> String {
    model.info_list.as_ref().unwrap().plain()
}

#[test]
fn queueing_announces_the_first_invocation() {
    let mut m = model();
    m.queue_jj_commands(vec![JjCommand::undo(args()), JjCommand::redo(args())]);
    assert_eq!(info(&m), "jj undo\nRunning...");
    assert_eq!(m.queued_jj_commands.len(), 2);
    assert!(m.accumulated_command_output.is_empty());
    assert_eq!(m.next_jj_command().map(|c| c.description()), Some("jj undo".to_string()));
}

#[test]
fn queueing_drops_what_was_shown_before() {
    let mut m = model();
    m.queue_jj_command(JjCommand::status(args()));
    m.process_jj_command_queue(Ok("clean".to_string())).unwrap();
    m.queue_jj_command(JjCommand::undo(args()));
    assert_eq!(info(&m), "jj undo\nRunning...");
}

#[test]
fn empty_queue_is_idle() {
    let mut m = model();
    assert!(m.next_jj_command().is_none());
    assert_eq!(m.process_jj_command_queue(Ok("x".to_string())), Ok(QueueStep::Idle));
    assert!(m.info_list.is_none());
}

#[test]
fn success_with_more_to_run_announces_the_next_invocation() {
    let mut m = model();
    m.queue_jj_commands(vec![JjCommand::git_fetch(None, None, args()), JjCommand::undo(args())]);
    let step = m.process_jj_command_queue(Ok("fetched".to_string())).unwrap();
    assert_eq!(step, QueueStep::Continue);
    assert_eq!(info(&m), "jj git fetch\nfetched\njj undo\nRunning...");
    assert_eq!(m.queued_jj_commands.len(), 1);
}

#[test]
fn last_success_asks_for_a_reload_after_a_mutation() {
    let mut m = model();
    m.queue_jj_command(JjCommand::undo(args()));
    assert_eq!(m.process_jj_command_queue(Ok("done".to_string())), Ok(QueueStep::Reload));
    assert_eq!(info(&m), "jj undo\ndone");
    assert!(m.queued_jj_commands.is_empty());
    assert!(m.accumulated_command_output.is_empty());
}

#[test]
fn last_success_of_a_view_asks_for_no_reload() {
    let mut m = model();
    m.queue_jj_command(JjCommand::status(args()));
    assert_eq!(m.process_jj_command_queue(Ok("clean".to_string())), Ok(QueueStep::Finished));
    assert_eq!(info(&m), "jj status\nclean");
}

#[test]
fn two_invocations_of_which_the_second_fails() {
    let mut m = model();
    m.queue_jj_commands(vec![
        JjCommand::git_fetch(None, None, args()),
        JjCommand::rebase("--branch", "x", "--onto", "trunk()", args()),
    ]);
    assert_eq!(m.process_jj_command_queue(Ok("ok1".to_string())), Ok(QueueStep::Continue));
    let failed = Err(JjCommandError::Failed { stderr: "bad arg".to_string() });
    assert_eq!(m.process_jj_command_queue(failed), Ok(QueueStep::Failed));
    assert_eq!(info(&m), "jj git fetch\nok1\n\njj rebase --branch x --onto trunk()\nbad arg");
    assert!(m.queued_jj_commands.is_empty());
}

#[test]
fn failure_drops_the_rest_of_the_queue() {
    let mut m = model();
    m.queue_jj_commands(vec![
        JjCommand::undo(args()),
        JjCommand::redo(args()),
        JjCommand::tug(args()),
    ]);
    assert_eq!(m.process_jj_command_queue(Ok("one".to_string())), Ok(QueueStep::Continue));
    let failed = Err(JjCommandError::Failed { stderr: "nope".to_string() });
    assert_eq!(m.process_jj_command_queue(failed), Ok(QueueStep::Failed));
    assert_eq!(info(&m), "jj undo\none\n\njj redo\nnope");
    assert!(m.next_jj_command().is_none());
    assert_eq!(m.process_jj_command_queue(Ok("late".to_string())), Ok(QueueStep::Idle));
    assert_eq!(info(&m), "jj undo\none\n\njj redo\nnope");
}

#[test]
fn failure_clears_the_saved_selection_and_the_pending_keys() {
    let mut m = model();
    m.save_selection();
    assert!(m.saved_change_id.is_some());
    m.queue_jj_command(JjCommand::undo(args()));
    let failed = Err(JjCommandError::Failed { stderr: "nope".to_string() });
    m.process_jj_command_queue(failed).unwrap();
    assert!(m.saved_change_id.is_none());
    assert!(m.saved_tree_position.is_none());
    assert!(!m.has_pending_command_keys());
}

#[test]
fn engine_that_cannot_run_ends_the_session() {
    let mut m = model();
    m.queue_jj_command(JjCommand::undo(args()));
    let broken = Err(JjCommandError::Other { err: "no such file".to_string() });
    assert_eq!(m.process_jj_command_queue(broken), Err("no such file".to_string()));
    assert_eq!(m.queued_jj_commands.len(), 1);
}

#[test]
fn output_is_parsed_for_colours() {
    let mut m = model();
    m.queue_jj_command(JjCommand::status(args()));
    m.process_jj_command_queue(Ok("\u{1b}[31mred\u{1b}[0m plain\nnext".to_string())).unwrap();
    let text = m.info_list.as_ref().unwrap();
    assert_eq!(text.plain(), "jj status\nred plain\nnext");
    assert_eq!(text.lines[1].spans[0].content, "red");
    assert_eq!(text.lines[1].spans[0].style.fg, Some(TextColor::Red));
    assert_ne!(text.lines[1].spans[1].style, TextStyle::fg(TextColor::Red));
}

#[test]
fn outcome_is_taken_as_lines() {
    let mut m = model();
    m.queue_jj_commands(vec![JjCommand::undo(args()), JjCommand::redo(args())]);
    let step = m.finish_jj_command(CommandOutcome::Succeeded(vec![Line::raw("a"), Line::raw("b")]));
    assert_eq!(step, QueueStep::Continue);
    assert_eq!(info(&m), "jj undo\na\nb\njj redo\nRunning...");
    let step = m.finish_jj_command(CommandOutcome::Failed(vec![]));
    assert_eq!(step, QueueStep::Failed);
    assert_eq!(info(&m), "jj undo\na\nb\n\njj redo");
}

#[test]
fn save_selection_then_clear_leaves_nothing_saved() {
    let mut m = model();
    m.save_selection();
    assert_eq!(m.saved_change_id.as_deref(), Some("bbb"));
    assert_eq!(m.saved_file_path, None);
    assert_eq!(m.saved_tree_position, Some(vec![1]));
    m.clear();
    assert!(m.saved_change_id.is_none());
    assert!(m.saved_file_path.is_none());
    assert!(m.saved_tree_position.is_none());
    assert_eq!(m.get_saved_selection_flat_log_idxs(), (None, None));
}

#[test]
fn save_selection_without_a_commit_reports_and_clears() {
    let mut m = Model::new("/repo".to_string(), "none()".to_string(), None, vec![]).unwrap();
    m.save_selection();
    assert!(m.saved_change_id.is_none());
    assert_eq!(info(&m), "Invalid selection");
}
