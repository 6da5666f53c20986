use jjdag::command_tree::{
    display_unbound_error_lines, show_unbound_error, CommandTree, CommandTreeNode,
};
use jjdag::keys::Key;
use jjdag::text::{Line, Span, Text, TextColor, TextStyle};
use jjdag::update::{
    AbandonMode, BookmarkMoveMode, Message, RebaseDestination, RebaseDestinationType,
    RebaseSourceType,
};

fn small_tree() -> CommandTree {
    let mut tree = CommandTree(CommandTreeNode::new_children());
    tree.add_children(vec![
        ("a", "b", vec![Key::Char('a')], CommandTreeNode::new_children()),
        (
            "a",
            "a",
            vec![Key::Char('a'), Key::Char('a')],
            CommandTreeNode::new_action(Message::Abandon { mode: AbandonMode::Default }),
        ),
    ]);
    tree
}

fn row(line: &Line) -> String {
    line.plain()
}

#[test]
fn registered_sequences_resolve_to_their_actions() {
    let tree = small_tree();
    let menu = tree.get_node(&[Key::Char('a')]).unwrap();
    assert!(menu.action.is_none());
    assert!(menu.children.is_some());
    let leaf = tree.get_node(&[Key::Char('a'), Key::Char('a')]).unwrap();
    assert_eq!(leaf.action, Some(Message::Abandon { mode: AbandonMode::Default }));
    assert!(leaf.children.is_none());
}

#[test]
fn lookup_is_the_same_every_time() {
    let tree = CommandTree::new();
    let keys = [Key::Char('r'), Key::Char('b'), Key::Char('o'), Key::Enter];
    let first = tree.get_node(&keys).unwrap().action;
    let second = tree.get_node(&keys).unwrap().action;
    assert_eq!(first, second);
    assert_eq!(
        first,
        Some(Message::Rebase {
            source_type: RebaseSourceType::Branch,
            destination_type: RebaseDestinationType::Onto,
            destination: RebaseDestination::Selection,
        })
    );
}

#[test]
fn unregistered_extension_of_a_prefix_is_unbound() {
    let tree = small_tree();
    assert!(tree.get_node(&[Key::Char('a'), Key::Char('z')]).is_none());
    assert!(tree.get_node(&[Key::Char('z')]).is_none());
    assert!(tree.get_node(&[Key::Char('a'), Key::Char('a'), Key::Char('a')]).is_none());
    assert!(tree.get_node(&[Key::Enter]).is_none());
}

#[test]
fn empty_sequence_resolves_to_the_root() {
    let tree = small_tree();
    let root = tree.get_node(&[]).unwrap();
    assert!(root.children.is_some());
    assert!(root.action.is_none());
}

#[test]
fn children_are_found_by_key() {
    let tree = small_tree();
    let root = tree.get_node(&[]).unwrap();
    let children = root.children.as_ref().unwrap();
    assert!(children.get_node(&Key::Char('a')).is_some());
    assert!(children.get_node(&Key::Char('b')).is_none());
}

#[test]
fn node_constructors_set_action_and_children() {
    let menu = CommandTreeNode::new_children();
    assert!(menu.action.is_none() && menu.children.is_some());
    let leaf = CommandTreeNode::new_action(Message::Quit);
    assert_eq!(leaf.action, Some(Message::Quit));
    assert!(leaf.children.is_none());
    let chained = CommandTreeNode::new_action_with_children(Message::SaveSelection);
    assert_eq!(chained.action, Some(Message::SaveSelection));
    assert!(chained.children.is_some());
}

#[test]
fn default_table_has_chained_save_selection_nodes() {
    let tree = CommandTree::new();
    let chained = tree.get_node(&[Key::Char('b'), Key::Char('m'), Key::Char('m')]).unwrap();
    assert_eq!(chained.action, Some(Message::SaveSelection));
    assert!(chained.children.is_some());
    let done = tree
        .get_node(&[Key::Char('b'), Key::Char('m'), Key::Char('m'), Key::Enter])
        .unwrap();
    assert_eq!(done.action, Some(Message::BookmarkMove { mode: BookmarkMoveMode::Default }));
    assert!(done.children.is_none());
}

#[test]
fn default_table_binds_top_level_actions() {
    let tree = CommandTree::new();
    assert_eq!(tree.get_node(&[Key::Char('t')]).unwrap().action, Some(Message::Status));
    assert_eq!(tree.get_node(&[Key::Char('/')]).unwrap().action, Some(Message::Split));
    assert_eq!(
        tree.get_node(&[Key::Char('u'), Key::Char('r')]).unwrap().action,
        Some(Message::Redo)
    );
    assert!(tree.get_node(&[Key::Char('x')]).is_none());
}

#[test]
fn menu_help_lists_rows_by_group_sorted_by_help_text() {
    let mut tree = CommandTree(CommandTreeNode::new_children());
    tree.add_children(vec![
        ("Letters", "zeta", vec![Key::Char('a')], CommandTreeNode::new_action(Message::Quit)),
        ("Letters", "Alpha", vec![Key::Char('b')], CommandTreeNode::new_action(Message::Quit)),
        ("Other", "mid", vec![Key::Char('c')], CommandTreeNode::new_action(Message::Quit)),
        ("Letters", "beta", vec![Key::Char('d')], CommandTreeNode::new_action(Message::Quit)),
    ]);
    let help = tree.get_node(&[]).unwrap().children.as_ref().unwrap().get_help();
    let rows: Vec<String> = help.lines.iter().map(row).collect();
    assert_eq!(rows.len(), 4);
    assert_eq!(rows[0], format!(" {:26}{:26}", "Letters", "Other"));
    assert_eq!(rows[1], format!(" {:26}{:26}", "b Alpha", "c mid"));
    assert_eq!(rows[2], format!(" {:26}{:26}", "d beta", ""));
    assert_eq!(rows[3], format!(" {:26}{:26}", "a zeta", ""));
    assert_eq!(help.lines[0].spans[1].style, TextStyle::fg(TextColor::Blue));
    assert_eq!(help.lines[1].spans[1].style, TextStyle::fg(TextColor::Green));
    assert_eq!(help.lines[1].spans[1].content, "b");
}

#[test]
fn long_group_runs_on_into_a_column_with_a_blank_header() {
    let mut tree = CommandTree(CommandTreeNode::new_children());
    let letters = "abcdefghijklmnop";
    let rows = letters
        .chars()
        .map(|c| ("Group", "text", vec![Key::Char(c)], CommandTreeNode::new_action(Message::Quit)))
        .collect();
    tree.add_children(rows);
    let help = tree.get_node(&[]).unwrap().children.as_ref().unwrap().get_help();
    assert_eq!(help.lines.len(), 15);
    assert_eq!(row(&help.lines[0]), format!(" {:26}{:26}", "Group", ""));
    assert_eq!(row(&help.lines[1]), format!(" {:26}{:26}", "a text", "o text"));
    assert_eq!(row(&help.lines[2]), format!(" {:26}{:26}", "b text", "p text"));
    assert_eq!(row(&help.lines[3]), format!(" {:26}{:26}", "c text", ""));
    assert_eq!(row(&help.lines[14]), format!(" {:26}{:26}", "n text", ""));
}

#[test]
fn tree_help_adds_navigation_and_general_groups() {
    let tree = small_tree();
    let help = tree.get_help();
    let header = row(&help.lines[0]);
    assert_eq!(header, format!(" {:26}{:26}{:26}", "a", "Navigation", "General"));
    assert_eq!(help.lines.len(), 10);
    assert_eq!(row(&help.lines[1]), format!(" {:26}{:26}{:26}", "a b", "Tab  Toggle folding", "Spc/Ctrl-r Refresh log tree"));
    assert_eq!(row(&help.lines[9]), format!(" {:26}{:26}{:26}", "", "@ Select @ change", ""));
}

#[test]
fn default_tree_help_has_the_commands_group_first() {
    let help = CommandTree::new().get_help();
    assert!(row(&help.lines[0]).starts_with(" Commands "));
    assert_eq!(
        row(&help.lines[1]),
        format!(
            " {:26}{:26}{:26}{:26}",
            "a Abandon",
            "p Parallelize",
            "Tab  Toggle folding",
            "Spc/Ctrl-r Refresh log tree"
        )
    );
}

#[test]
fn unbound_key_is_reported_in_an_empty_info_text() {
    let mut info = None;
    display_unbound_error_lines(&mut info, &Key::Char('x'));
    let text = info.unwrap();
    assert_eq!(text.plain(), " Unbound suffix: 'x'");
    let spans = &text.lines[0].spans;
    assert_eq!(spans[0], Span::styled(" Unbound suffix: ", TextStyle::fg(TextColor::Red)));
    assert_eq!(spans[2], Span::styled("x", TextStyle::fg(TextColor::Green)));
}

#[test]
fn unbound_key_is_reported_behind_a_blank_line_under_other_text() {
    let mut info = Some(Text::raw("menu"));
    show_unbound_error(&mut info, "x");
    assert_eq!(info.as_ref().unwrap().plain(), "menu\n\n Unbound suffix: 'x'");
    show_unbound_error(&mut info, "y");
    assert_eq!(info.as_ref().unwrap().plain(), "menu\n\n Unbound suffix: 'y'");
}

#[test]
fn unbound_report_replaces_an_earlier_report() {
    let mut info = None;
    show_unbound_error(&mut info, "x");
    show_unbound_error(&mut info, "Enter");
    assert_eq!(info.unwrap().plain(), " Unbound suffix: 'Enter'");
}
