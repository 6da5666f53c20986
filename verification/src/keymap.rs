//! The built-in key table and the trie made of it.

use vstd::prelude::*;
use crate::command_tree::{
    insert_below, is_menu, leaf_model, lemma_registered_rows_concat, registered, registered_one,
    registered_rows, CommandTree, CommandTreeNode, Row, TrieModel,
};
use crate::keys::{codes_of, Key};
use crate::update::{
    AbandonMode, AbsorbMode, BookmarkMoveMode, DescribeMode, DuplicateDestination,
    DuplicateDestinationType, GitFetchMode, GitPushMode, InterdiffMode, Message, MetaeditAction,
    NewMode, NextPrevDirection, NextPrevMode, ParallelizeSource, RebaseDestination,
    RebaseDestinationType, RebaseSourceType, RestoreMode, RevertDestination, RevertDestinationType,
    RevertRevision, SignAction, SimplifyParentsMode, SquashMode, ViewMode,
};

verus! {

/// Registers one row below the menu at `prefix` and notes it at the end of
/// `done`, the rows registered since the trie was `start`. Menus that the
/// row cannot have touched are menus afterwards.
fn bind(
    tree: &mut CommandTree,
    Ghost(start): Ghost<TrieModel>,
    Ghost(done): Ghost<Seq<Row>>,
    Ghost(prefix): Ghost<Seq<u64>>,
    Ghost(last): Ghost<Key>,
    group: &'static str,
    text: &'static str,
    keys: Vec<Key>,
    Ghost(path): Ghost<Seq<Key>>,
    node: CommandTreeNode,
) -> (r: Ghost<Seq<Row>>)
    requires
        keys@ =~= path,
        codes_of(path) =~= prefix.push(last.spec_code()),
        is_menu(old(tree)@, prefix),
        registered_rows(start, done, old(tree)@),
        node@.contains_key(Seq::empty()),
    ensures
        r@ == done.push(Row { group: group@, text: text@, keys: path, node: node@ }),
        registered_rows(start, r@, final(tree)@),
        is_menu(final(tree)@, prefix),
        node@[Seq::empty()].children.is_some() ==> is_menu(
            final(tree)@,
            prefix.push(last.spec_code()),
        ),
        forall|p: Seq<u64>| #[trigger]
            is_menu(old(tree)@, p) && p.len() <= prefix.len() ==> is_menu(final(tree)@, p),
        forall|p: Seq<u64>| #[trigger]
            is_menu(old(tree)@, p) && p.len() == prefix.len() + 1 && p.last() != last.spec_code()
                ==> is_menu(final(tree)@, p),
{
    let ghost now = tree@;
    let ghost target = codes_of(path);
    proof {
        assert(codes_of(keys@).len() == keys@.len());
        assert(codes_of(keys@).skip(0) =~= codes_of(keys@));
        assert(target.drop_last() =~= prefix);
    }
    insert_below(&mut tree.0, &keys, 0, group, text, node);
    let ghost rows = done.push(Row { group: group@, text: text@, keys: path, node: node@ });
    proof {
        assert(rows.drop_last() =~= done);
        assert(registered_rows(start, rows.drop_last(), now) && registered_one(
            now,
            codes_of(rows.last().keys),
            rows.last().node,
            rows.last().group,
            rows.last().text,
            tree@,
        ));
        let label = choose|label: Seq<char>|
            tree@ == #[trigger] registered(now, target, node@, group@, label, text@);
        assert(target.is_prefix_of(target));
        assert(target.skip(target.len() as int) =~= Seq::<u64>::empty());
        assert forall|p: Seq<u64>| #[trigger]
            is_menu(now, p) && p.len() == prefix.len() + 1 && p.last()
                != last.spec_code() implies is_menu(tree@, p) by {
            if target.is_prefix_of(p) {
                assert(p.subrange(0, target.len() as int) =~= p);
            }
        }
    }
    Ghost(rows)
}

/// Rows 1 to 12 of the key table.
pub open spec fn rows_from_a() -> Seq<Row> {
    seq![
        Row {
            group: "Commands"@,
            text: "Abandon"@,
            keys: seq![Key::Char('a')],
            node: leaf_model(None, true),
        },
        Row {
            group: "Abandon"@,
            text: "Selection"@,
            keys: seq![Key::Char('a'), Key::Char('a')],
            node: leaf_model(Some(Message::Abandon { mode: AbandonMode::Default }), false),
        },
        Row {
            group: "Abandon"@,
            text: "Selection (retain bookmarks)"@,
            keys: seq![Key::Char('a'), Key::Char('b')],
            node: leaf_model(Some(Message::Abandon { mode: AbandonMode::RetainBookmarks }), false),
        },
        Row {
            group: "Abandon"@,
            text: "Selection (restore descendants)"@,
            keys: seq![Key::Char('a'), Key::Char('d')],
            node: leaf_model(
                Some(Message::Abandon { mode: AbandonMode::RestoreDescendants }),
                false,
            ),
        },
        Row {
            group: "Commands"@,
            text: "Absorb"@,
            keys: seq![Key::Char('A')],
            node: leaf_model(None, true),
        },
        Row {
            group: "Absorb"@,
            text: "From selection"@,
            keys: seq![Key::Char('A'), Key::Char('a')],
            node: leaf_model(Some(Message::Absorb { mode: AbsorbMode::Default }), false),
        },
        Row {
            group: "Absorb"@,
            text: "From selection into destination"@,
            keys: seq![Key::Char('A'), Key::Char('i')],
            node: leaf_model(Some(Message::SaveSelection), true),
        },
        Row {
            group: "Absorb into"@,
            text: "Select destination"@,
            keys: seq![Key::Char('A'), Key::Char('i'), Key::Enter],
            node: leaf_model(Some(Message::Absorb { mode: AbsorbMode::Into }), false),
        },
        Row {
            group: "Commands"@,
            text: "Bookmark"@,
            keys: seq![Key::Char('b')],
            node: leaf_model(None, true),
        },
        Row {
            group: "Bookmark"@,
            text: "Create at selection (inline edit)"@,
            keys: seq![Key::Char('b'), Key::Char('c')],
            node: leaf_model(Some(Message::BookmarkEditStart), false),
        },
        Row {
            group: "Bookmark"@,
            text: "New revision and tug bookmark"@,
            keys: seq![Key::Char('b'), Key::Char('n')],
            node: leaf_model(Some(Message::NewOnBranch), false),
        },
        Row {
            group: "Bookmark"@,
            text: "Move"@,
            keys: seq![Key::Char('b'), Key::Char('m')],
            node: leaf_model(None, true),
        },
    ]
}

fn bind_rows_from_a(tree: &mut CommandTree)
    requires
        is_menu(old(tree)@, Seq::<u64>::empty()),
    ensures
        registered_rows(old(tree)@, rows_from_a(), final(tree)@),
        is_menu(final(tree)@, Seq::<u64>::empty()),
        is_menu(final(tree)@, Seq::<u64>::empty().push(Key::Char('b').spec_code())),
        is_menu(final(tree)@, Seq::<u64>::empty()
            .push(Key::Char('b').spec_code())
            .push(Key::Char('m').spec_code())),
{
    let ghost start = tree@;
    let ghost root = Seq::<u64>::empty();
    let done: Ghost<Seq<Row>> = Ghost(Seq::empty());
    let ghost path = seq![Key::Char('a')];
    let done = bind(
        tree,
        Ghost(start),
        done,
        Ghost(root),
        Ghost(Key::Char('a')),
        "Commands",
        "Abandon",
        vec![Key::Char('a')],
        Ghost(path),
        CommandTreeNode::new_children(),
    );
    let ghost menu_a = Seq::<u64>::empty().push(Key::Char('a').spec_code());
    let ghost path = seq![Key::Char('a'), Key::Char('a')];
    let done = bind(
        tree,
        Ghost(start),
        done,
        Ghost(menu_a),
        Ghost(Key::Char('a')),
        "Abandon",
        "Selection",
        vec![Key::Char('a'), Key::Char('a')],
        Ghost(path),
        CommandTreeNode::new_action(Message::Abandon { mode: AbandonMode::Default }),
    );
    let ghost path = seq![Key::Char('a'), Key::Char('b')];
    let done = bind(
        tree,
        Ghost(start),
        done,
        Ghost(menu_a),
        Ghost(Key::Char('b')),
        "Abandon",
        "Selection (retain bookmarks)",
        vec![Key::Char('a'), Key::Char('b')],
        Ghost(path),
        CommandTreeNode::new_action(Message::Abandon { mode: AbandonMode::RetainBookmarks }),
    );
    let ghost path = seq![Key::Char('a'), Key::Char('d')];
    let done = bind(
        tree,
        Ghost(start),
        done,
        Ghost(menu_a),
        Ghost(Key::Char('d')),
        "Abandon",
        "Selection (restore descendants)",
        vec![Key::Char('a'), Key::Char('d')],
        Ghost(path),
        CommandTreeNode::new_action(
            Message::Abandon { mode: AbandonMode::RestoreDescendants },
        ),
    );
    let ghost path = seq![Key::Char('A')];
    let done = bind(
        tree,
        Ghost(start),
        done,
        Ghost(root),
        Ghost(Key::Char('A')),
        "Commands",
        "Absorb",
        vec![Key::Char('A')],
        Ghost(path),
        CommandTreeNode::new_children(),
    );
    let ghost menu_shift_a = Seq::<u64>::empty().push(Key::Char('A').spec_code());
    let ghost path = seq![Key::Char('A'), Key::Char('a')];
    let done = bind(
        tree,
        Ghost(start),
        done,
        Ghost(menu_shift_a),
        Ghost(Key::Char('a')),
        "Absorb",
        "From selection",
        vec![Key::Char('A'), Key::Char('a')],
        Ghost(path),
        CommandTreeNode::new_action(Message::Absorb { mode: AbsorbMode::Default }),
    );
    let ghost path = seq![Key::Char('A'), Key::Char('i')];
    let done = bind(
        tree,
        Ghost(start),
        done,
        Ghost(menu_shift_a),
        Ghost(Key::Char('i')),
        "Absorb",
        "From selection into destination",
        vec![Key::Char('A'), Key::Char('i')],
        Ghost(path),
        CommandTreeNode::new_action_with_children(Message::SaveSelection),
    );
    let ghost menu_shift_a_i = Seq::<u64>::empty()
        .push(Key::Char('A').spec_code())
        .push(Key::Char('i').spec_code());
    let ghost path = seq![Key::Char('A'), Key::Char('i'), Key::Enter];
    let done = bind(
        tree,
        Ghost(start),
        done,
        Ghost(menu_shift_a_i),
        Ghost(Key::Enter),
        "Absorb into",
        "Select destination",
        vec![Key::Char('A'), Key::Char('i'), Key::Enter],
        Ghost(path),
        CommandTreeNode::new_action(Message::Absorb { mode: AbsorbMode::Into }),
    );
    let ghost path = seq![Key::Char('b')];
    let done = bind(
        tree,
        Ghost(start),
        done,
        Ghost(root),
        Ghost(Key::Char('b')),
        "Commands",
        "Bookmark",
        vec![Key::Char('b')],
        Ghost(path),
        CommandTreeNode::new_children(),
    );
    let ghost menu_b = Seq::<u64>::empty().push(Key::Char('b').spec_code());
    let ghost path = seq![Key::Char('b'), Key::Char('c')];
    let done = bind(
        tree,
        Ghost(start),
        done,
        Ghost(menu_b),
        Ghost(Key::Char('c')),
        "Bookmark",
        "Create at selection (inline edit)",
        vec![Key::Char('b'), Key::Char('c')],
        Ghost(path),
        CommandTreeNode::new_action(Message::BookmarkEditStart),
    );
    let ghost path = seq![Key::Char('b'), Key::Char('n')];
    let done = bind(
        tree,
        Ghost(start),
        done,
        Ghost(menu_b),
        Ghost(Key::Char('n')),
        "Bookmark",
        "New revision and tug bookmark",
        vec![Key::Char('b'), Key::Char('n')],
        Ghost(path),
        CommandTreeNode::new_action(Message::NewOnBranch),
    );
    let ghost path = seq![Key::Char('b'), Key::Char('m')];
    let done = bind(
        tree,
        Ghost(start),
        done,
        Ghost(menu_b),
        Ghost(Key::Char('m')),
        "Bookmark",
        "Move",
        vec![Key::Char('b'), Key::Char('m')],
        Ghost(path),
        CommandTreeNode::new_children(),
    );
    let ghost menu_b_m = Seq::<u64>::empty()
        .push(Key::Char('b').spec_code())
        .push(Key::Char('m').spec_code());
    assert(done@ =~= rows_from_a());
}

/// Rows 13 to 24 of the key table.
pub open spec fn rows_from_b_m_m() -> Seq<Row> {
    seq![
        Row {
            group: "Bookmark move"@,
            text: "Selected bookmark to destination"@,
            keys: seq![Key::Char('b'), Key::Char('m'), Key::Char('m')],
            node: leaf_model(Some(Message::SaveSelection), true),
        },
        Row {
            group: "Move bookmark to"@,
            text: "Select destination"@,
            keys: seq![Key::Char('b'), Key::Char('m'), Key::Char('m'), Key::Enter],
            node: leaf_model(Some(Message::BookmarkMove { mode: BookmarkMoveMode::Default }), false),
        },
        Row {
            group: "Bookmark move"@,
            text: "Selected bookmark to destination (allow backwards)"@,
            keys: seq![Key::Char('b'), Key::Char('m'), Key::Char('M')],
            node: leaf_model(Some(Message::SaveSelection), true),
        },
        Row {
            group: "Move bookmark to, allowing backwards"@,
            text: "Select destination"@,
            keys: seq![Key::Char('b'), Key::Char('m'), Key::Char('M'), Key::Enter],
            node: leaf_model(
                Some(Message::BookmarkMove { mode: BookmarkMoveMode::AllowBackwards }),
                false,
            ),
        },
        Row {
            group: "Bookmark move"@,
            text: "Tug to selection"@,
            keys: seq![Key::Char('b'), Key::Char('m'), Key::Char('t')],
            node: leaf_model(Some(Message::BookmarkMove { mode: BookmarkMoveMode::Tug }), false),
        },
        Row {
            group: "Bookmark"@,
            text: "Tug ancestor to current"@,
            keys: seq![Key::Char('b'), Key::Char('T')],
            node: leaf_model(Some(Message::Tug), false),
        },
        Row {
            group: "Bookmark"@,
            text: "Rename"@,
            keys: seq![Key::Char('b'), Key::Char('r')],
            node: leaf_model(Some(Message::BookmarkRename), false),
        },
        Row {
            group: "Bookmark"@,
            text: "Track"@,
            keys: seq![Key::Char('b'), Key::Char('t')],
            node: leaf_model(Some(Message::BookmarkTrack), false),
        },
        Row {
            group: "Bookmark"@,
            text: "Untrack"@,
            keys: seq![Key::Char('b'), Key::Char('u')],
            node: leaf_model(Some(Message::BookmarkUntrack), false),
        },
        Row {
            group: "Bookmark"@,
            text: "Delete"@,
            keys: seq![Key::Char('b'), Key::Char('d')],
            node: leaf_model(Some(Message::BookmarkDelete), false),
        },
        Row {
            group: "Bookmark"@,
            text: "Forget"@,
            keys: seq![Key::Char('b'), Key::Char('f')],
            node: leaf_model(Some(Message::BookmarkForget { include_remotes: false }), false),
        },
        Row {
            group: "Bookmark"@,
            text: "Forget, including remotes"@,
            keys: seq![Key::Char('b'), Key::Char('F')],
            node: leaf_model(Some(Message::BookmarkForget { include_remotes: true }), false),
        },
    ]
}

fn bind_rows_from_b_m_m(tree: &mut CommandTree)
    requires
        is_menu(old(tree)@, Seq::<u64>::empty()),
        is_menu(old(tree)@, Seq::<u64>::empty().push(Key::Char('b').spec_code())),
        is_menu(old(tree)@, Seq::<u64>::empty()
            .push(Key::Char('b').spec_code())
            .push(Key::Char('m').spec_code())),
    ensures
        registered_rows(old(tree)@, rows_from_b_m_m(), final(tree)@),
        is_menu(final(tree)@, Seq::<u64>::empty()),
        is_menu(final(tree)@, Seq::<u64>::empty().push(Key::Char('b').spec_code())),
{
    let ghost start = tree@;
    let ghost root = Seq::<u64>::empty();
    let ghost menu_b = Seq::<u64>::empty().push(Key::Char('b').spec_code());
    let ghost menu_b_m = Seq::<u64>::empty()
        .push(Key::Char('b').spec_code())
        .push(Key::Char('m').spec_code());
    let done: Ghost<Seq<Row>> = Ghost(Seq::empty());
    let ghost path = seq![Key::Char('b'), Key::Char('m'), Key::Char('m')];
    let done = bind(
        tree,
        Ghost(start),
        done,
        Ghost(menu_b_m),
        Ghost(Key::Char('m')),
        "Bookmark move",
        "Selected bookmark to destination",
        vec![Key::Char('b'), Key::Char('m'), Key::Char('m')],
        Ghost(path),
        CommandTreeNode::new_action_with_children(Message::SaveSelection),
    );
    let ghost menu_b_m_m = Seq::<u64>::empty()
        .push(Key::Char('b').spec_code())
        .push(Key::Char('m').spec_code())
        .push(Key::Char('m').spec_code());
    let ghost path = seq![Key::Char('b'), Key::Char('m'), Key::Char('m'), Key::Enter];
    let done = bind(
        tree,
        Ghost(start),
        done,
        Ghost(menu_b_m_m),
        Ghost(Key::Enter),
        "Move bookmark to",
        "Select destination",
        vec![Key::Char('b'), Key::Char('m'), Key::Char('m'), Key::Enter],
        Ghost(path),
        CommandTreeNode::new_action(Message::BookmarkMove { mode: BookmarkMoveMode::Default }),
    );
    let ghost path = seq![Key::Char('b'), Key::Char('m'), Key::Char('M')];
    let done = bind(
        tree,
        Ghost(start),
        done,
        Ghost(menu_b_m),
        Ghost(Key::Char('M')),
        "Bookmark move",
        "Selected bookmark to destination (allow backwards)",
        vec![Key::Char('b'), Key::Char('m'), Key::Char('M')],
        Ghost(path),
        CommandTreeNode::new_action_with_children(Message::SaveSelection),
    );
    let ghost menu_b_m_shift_m = Seq::<u64>::empty()
        .push(Key::Char('b').spec_code())
        .push(Key::Char('m').spec_code())
        .push(Key::Char('M').spec_code());
    let ghost path = seq![Key::Char('b'), Key::Char('m'), Key::Char('M'), Key::Enter];
    let done = bind(
        tree,
        Ghost(start),
        done,
        Ghost(menu_b_m_shift_m),
        Ghost(Key::Enter),
        "Move bookmark to, allowing backwards",
        "Select destination",
        vec![Key::Char('b'), Key::Char('m'), Key::Char('M'), Key::Enter],
        Ghost(path),
        CommandTreeNode::new_action(
            Message::BookmarkMove { mode: BookmarkMoveMode::AllowBackwards },
        ),
    );
    let ghost path = seq![Key::Char('b'), Key::Char('m'), Key::Char('t')];
    let done = bind(
        tree,
        Ghost(start),
        done,
        Ghost(menu_b_m),
        Ghost(Key::Char('t')),
        "Bookmark move",
        "Tug to selection",
        vec![Key::Char('b'), Key::Char('m'), Key::Char('t')],
        Ghost(path),
        CommandTreeNode::new_action(Message::BookmarkMove { mode: BookmarkMoveMode::Tug }),
    );
    let ghost path = seq![Key::Char('b'), Key::Char('T')];
    let done = bind(
        tree,
        Ghost(start),
        done,
        Ghost(menu_b),
        Ghost(Key::Char('T')),
        "Bookmark",
        "Tug ancestor to current",
        vec![Key::Char('b'), Key::Char('T')],
        Ghost(path),
        CommandTreeNode::new_action(Message::Tug),
    );
    let ghost path = seq![Key::Char('b'), Key::Char('r')];
    let done = bind(
        tree,
        Ghost(start),
        done,
        Ghost(menu_b),
        Ghost(Key::Char('r')),
        "Bookmark",
        "Rename",
        vec![Key::Char('b'), Key::Char('r')],
        Ghost(path),
        CommandTreeNode::new_action(Message::BookmarkRename),
    );
    let ghost path = seq![Key::Char('b'), Key::Char('t')];
    let done = bind(
        tree,
        Ghost(start),
        done,
        Ghost(menu_b),
        Ghost(Key::Char('t')),
        "Bookmark",
        "Track",
        vec![Key::Char('b'), Key::Char('t')],
        Ghost(path),
        CommandTreeNode::new_action(Message::BookmarkTrack),
    );
    let ghost path = seq![Key::Char('b'), Key::Char('u')];
    let done = bind(
        tree,
        Ghost(start),
        done,
        Ghost(menu_b),
        Ghost(Key::Char('u')),
        "Bookmark",
        "Untrack",
        vec![Key::Char('b'), Key::Char('u')],
        Ghost(path),
        CommandTreeNode::new_action(Message::BookmarkUntrack),
    );
    let ghost path = seq![Key::Char('b'), Key::Char('d')];
    let done = bind(
        tree,
        Ghost(start),
        done,
        Ghost(menu_b),
        Ghost(Key::Char('d')),
        "Bookmark",
        "Delete",
        vec![Key::Char('b'), Key::Char('d')],
        Ghost(path),
        CommandTreeNode::new_action(Message::BookmarkDelete),
    );
    let ghost path = seq![Key::Char('b'), Key::Char('f')];
    let done = bind(
        tree,
        Ghost(start),
        done,
        Ghost(menu_b),
        Ghost(Key::Char('f')),
        "Bookmark",
        "Forget",
        vec![Key::Char('b'), Key::Char('f')],
        Ghost(path),
        CommandTreeNode::new_action(Message::BookmarkForget { include_remotes: false }),
    );
    let ghost path = seq![Key::Char('b'), Key::Char('F')];
    let done = bind(
        tree,
        Ghost(start),
        done,
        Ghost(menu_b),
        Ghost(Key::Char('F')),
        "Bookmark",
        "Forget, including remotes",
        vec![Key::Char('b'), Key::Char('F')],
        Ghost(path),
        CommandTreeNode::new_action(Message::BookmarkForget { include_remotes: true }),
    );
    assert(done@ =~= rows_from_b_m_m());
}

/// Rows 25 to 36 of the key table.
pub open spec fn rows_from_b_s() -> Seq<Row> {
    seq![
        Row {
            group: "Bookmark"@,
            text: "Set to selection"@,
            keys: seq![Key::Char('b'), Key::Char('s')],
            node: leaf_model(Some(Message::BookmarkSet), false),
        },
        Row {
            group: "Commands"@,
            text: "Commit"@,
            keys: seq![Key::Char('c')],
            node: leaf_model(None, true),
        },
        Row {
            group: "Commit"@,
            text: "Selection"@,
            keys: seq![Key::Char('c'), Key::Char('c')],
            node: leaf_model(Some(Message::Commit), false),
        },
        Row {
            group: "Commands"@,
            text: "Describe"@,
            keys: seq![Key::Char('d')],
            node: leaf_model(None, true),
        },
        Row {
            group: "Describe"@,
            text: "Selection"@,
            keys: seq![Key::Char('d'), Key::Char('d')],
            node: leaf_model(
                Some(Message::DescriptionEditStart { mode: DescribeMode::Default }),
                false,
            ),
        },
        Row {
            group: "Describe"@,
            text: "Selection ignoring immutability"@,
            keys: seq![Key::Char('d'), Key::Char('i')],
            node: leaf_model(
                Some(Message::DescriptionEditStart { mode: DescribeMode::IgnoreImmutable }),
                false,
            ),
        },
        Row {
            group: "Commands"@,
            text: "Duplicate"@,
            keys: seq![Key::Char('D')],
            node: leaf_model(None, true),
        },
        Row {
            group: "Duplicate"@,
            text: "Selection"@,
            keys: seq![Key::Char('D'), Key::Char('d')],
            node: leaf_model(
                Some(
                    Message::Duplicate {
                        destination_type: DuplicateDestinationType::Default,
                        destination: DuplicateDestination::Default,
                    },
                ),
                false,
            ),
        },
        Row {
            group: "Duplicate"@,
            text: "Selection onto destination"@,
            keys: seq![Key::Char('D'), Key::Char('o')],
            node: leaf_model(Some(Message::SaveSelection), true),
        },
        Row {
            group: "Duplicate onto"@,
            text: "Select destination"@,
            keys: seq![Key::Char('D'), Key::Char('o'), Key::Enter],
            node: leaf_model(
                Some(
                    Message::Duplicate {
                        destination_type: DuplicateDestinationType::Onto,
                        destination: DuplicateDestination::Selection,
                    },
                ),
                false,
            ),
        },
        Row {
            group: "Duplicate"@,
            text: "Selection insert after destination"@,
            keys: seq![Key::Char('D'), Key::Char('a')],
            node: leaf_model(Some(Message::SaveSelection), true),
        },
        Row {
            group: "Duplicate insert after"@,
            text: "Select destination"@,
            keys: seq![Key::Char('D'), Key::Char('a'), Key::Enter],
            node: leaf_model(
                Some(
                    Message::Duplicate {
                        destination_type: DuplicateDestinationType::InsertAfter,
                        destination: DuplicateDestination::Selection,
                    },
                ),
                false,
            ),
        },
    ]
}

fn bind_rows_from_b_s(tree: &mut CommandTree)
    requires
        is_menu(old(tree)@, Seq::<u64>::empty()),
        is_menu(old(tree)@, Seq::<u64>::empty().push(Key::Char('b').spec_code())),
    ensures
        registered_rows(old(tree)@, rows_from_b_s(), final(tree)@),
        is_menu(final(tree)@, Seq::<u64>::empty()),
        is_menu(final(tree)@, Seq::<u64>::empty().push(Key::Char('D').spec_code())),
{
    let ghost start = tree@;
    let ghost root = Seq::<u64>::empty();
    let ghost menu_b = Seq::<u64>::empty().push(Key::Char('b').spec_code());
    let done: Ghost<Seq<Row>> = Ghost(Seq::empty());
    let ghost path = seq![Key::Char('b'), Key::Char('s')];
    let done = bind(
        tree,
        Ghost(start),
        done,
        Ghost(menu_b),
        Ghost(Key::Char('s')),
        "Bookmark",
        "Set to selection",
        vec![Key::Char('b'), Key::Char('s')],
        Ghost(path),
        CommandTreeNode::new_action(Message::BookmarkSet),
    );
    let ghost path = seq![Key::Char('c')];
    let done = bind(
        tree,
        Ghost(start),
        done,
        Ghost(root),
        Ghost(Key::Char('c')),
        "Commands",
        "Commit",
        vec![Key::Char('c')],
        Ghost(path),
        CommandTreeNode::new_children(),
    );
    let ghost menu_c = Seq::<u64>::empty().push(Key::Char('c').spec_code());
    let ghost path = seq![Key::Char('c'), Key::Char('c')];
    let done = bind(
        tree,
        Ghost(start),
        done,
        Ghost(menu_c),
        Ghost(Key::Char('c')),
        "Commit",
        "Selection",
        vec![Key::Char('c'), Key::Char('c')],
        Ghost(path),
        CommandTreeNode::new_action(Message::Commit),
    );
    let ghost path = seq![Key::Char('d')];
    let done = bind(
        tree,
        Ghost(start),
        done,
        Ghost(root),
        Ghost(Key::Char('d')),
        "Commands",
        "Describe",
        vec![Key::Char('d')],
        Ghost(path),
        CommandTreeNode::new_children(),
    );
    let ghost menu_d = Seq::<u64>::empty().push(Key::Char('d').spec_code());
    let ghost path = seq![Key::Char('d'), Key::Char('d')];
    let done = bind(
        tree,
        Ghost(start),
        done,
        Ghost(menu_d),
        Ghost(Key::Char('d')),
        "Describe",
        "Selection",
        vec![Key::Char('d'), Key::Char('d')],
        Ghost(path),
        CommandTreeNode::new_action(
            Message::DescriptionEditStart { mode: DescribeMode::Default },
        ),
    );
    let ghost path = seq![Key::Char('d'), Key::Char('i')];
    let done = bind(
        tree,
        Ghost(start),
        done,
        Ghost(menu_d),
        Ghost(Key::Char('i')),
        "Describe",
        "Selection ignoring immutability",
        vec![Key::Char('d'), Key::Char('i')],
        Ghost(path),
        CommandTreeNode::new_action(
            Message::DescriptionEditStart { mode: DescribeMode::IgnoreImmutable },
        ),
    );
    let ghost path = seq![Key::Char('D')];
    let done = bind(
        tree,
        Ghost(start),
        done,
        Ghost(root),
        Ghost(Key::Char('D')),
        "Commands",
        "Duplicate",
        vec![Key::Char('D')],
        Ghost(path),
        CommandTreeNode::new_children(),
    );
    let ghost menu_shift_d = Seq::<u64>::empty().push(Key::Char('D').spec_code());
    let ghost path = seq![Key::Char('D'), Key::Char('d')];
    let done = bind(
        tree,
        Ghost(start),
        done,
        Ghost(menu_shift_d),
        Ghost(Key::Char('d')),
        "Duplicate",
        "Selection",
        vec![Key::Char('D'), Key::Char('d')],
        Ghost(path),
        CommandTreeNode::new_action(
            Message::Duplicate {
                destination_type: DuplicateDestinationType::Default,
                destination: DuplicateDestination::Default,
            },
        ),
    );
    let ghost path = seq![Key::Char('D'), Key::Char('o')];
    let done = bind(
        tree,
        Ghost(start),
        done,
        Ghost(menu_shift_d),
        Ghost(Key::Char('o')),
        "Duplicate",
        "Selection onto destination",
        vec![Key::Char('D'), Key::Char('o')],
        Ghost(path),
        CommandTreeNode::new_action_with_children(Message::SaveSelection),
    );
    let ghost menu_shift_d_o = Seq::<u64>::empty()
        .push(Key::Char('D').spec_code())
        .push(Key::Char('o').spec_code());
    let ghost path = seq![Key::Char('D'), Key::Char('o'), Key::Enter];
    let done = bind(
        tree,
        Ghost(start),
        done,
        Ghost(menu_shift_d_o),
        Ghost(Key::Enter),
        "Duplicate onto",
        "Select destination",
        vec![Key::Char('D'), Key::Char('o'), Key::Enter],
        Ghost(path),
        CommandTreeNode::new_action(
            Message::Duplicate {
                destination_type: DuplicateDestinationType::Onto,
                destination: DuplicateDestination::Selection,
            },
        ),
    );
    let ghost path = seq![Key::Char('D'), Key::Char('a')];
    let done = bind(
        tree,
        Ghost(start),
        done,
        Ghost(menu_shift_d),
        Ghost(Key::Char('a')),
        "Duplicate",
        "Selection insert after destination",
        vec![Key::Char('D'), Key::Char('a')],
        Ghost(path),
        CommandTreeNode::new_action_with_children(Message::SaveSelection),
    );
    let ghost menu_shift_d_a = Seq::<u64>::empty()
        .push(Key::Char('D').spec_code())
        .push(Key::Char('a').spec_code());
    let ghost path = seq![Key::Char('D'), Key::Char('a'), Key::Enter];
    let done = bind(
        tree,
        Ghost(start),
        done,
        Ghost(menu_shift_d_a),
        Ghost(Key::Enter),
        "Duplicate insert after",
        "Select destination",
        vec![Key::Char('D'), Key::Char('a'), Key::Enter],
        Ghost(path),
        CommandTreeNode::new_action(
            Message::Duplicate {
                destination_type: DuplicateDestinationType::InsertAfter,
                destination: DuplicateDestination::Selection,
            },
        ),
    );
    assert(done@ =~= rows_from_b_s());
}

/// Rows 37 to 48 of the key table.
pub open spec fn rows_from_shift_d_b() -> Seq<Row> {
    seq![
        Row {
            group: "Duplicate"@,
            text: "Selection insert before destination"@,
            keys: seq![Key::Char('D'), Key::Char('b')],
            node: leaf_model(Some(Message::SaveSelection), true),
        },
        Row {
            group: "Duplicate insert before"@,
            text: "Select destination"@,
            keys: seq![Key::Char('D'), Key::Char('b'), Key::Enter],
            node: leaf_model(
                Some(
                    Message::Duplicate {
                        destination_type: DuplicateDestinationType::InsertBefore,
                        destination: DuplicateDestination::Selection,
                    },
                ),
                false,
            ),
        },
        Row {
            group: "Commands"@,
            text: "Edit"@,
            keys: seq![Key::Char('e')],
            node: leaf_model(None, true),
        },
        Row {
            group: "Edit"@,
            text: "Selection"@,
            keys: seq![Key::Char('e'), Key::Char('e')],
            node: leaf_model(Some(Message::Edit), false),
        },
        Row {
            group: "Commands"@,
            text: "Evolog"@,
            keys: seq![Key::Char('E')],
            node: leaf_model(None, true),
        },
        Row {
            group: "Evolog"@,
            text: "Selection"@,
            keys: seq![Key::Char('E'), Key::Char('e')],
            node: leaf_model(Some(Message::Evolog { patch: false }), false),
        },
        Row {
            group: "Evolog"@,
            text: "Selection (patch)"@,
            keys: seq![Key::Char('E'), Key::Char('E')],
            node: leaf_model(Some(Message::Evolog { patch: true }), false),
        },
        Row {
            group: "Commands"@,
            text: "File"@,
            keys: seq![Key::Char('f')],
            node: leaf_model(None, true),
        },
        Row {
            group: "File"@,
            text: "Track (enter filepath)"@,
            keys: seq![Key::Char('f'), Key::Char('t')],
            node: leaf_model(Some(Message::FileTrack), false),
        },
        Row {
            group: "File"@,
            text: "Untrack selection (must be ignored)"@,
            keys: seq![Key::Char('f'), Key::Char('u')],
            node: leaf_model(Some(Message::FileUntrack), false),
        },
        Row {
            group: "Commands"@,
            text: "Git"@,
            keys: seq![Key::Char('g')],
            node: leaf_model(None, true),
        },
        Row {
            group: "Git"@,
            text: "Fetch"@,
            keys: seq![Key::Char('g'), Key::Char('f')],
            node: leaf_model(None, true),
        },
    ]
}

fn bind_rows_from_shift_d_b(tree: &mut CommandTree)
    requires
        is_menu(old(tree)@, Seq::<u64>::empty()),
        is_menu(old(tree)@, Seq::<u64>::empty().push(Key::Char('D').spec_code())),
    ensures
        registered_rows(old(tree)@, rows_from_shift_d_b(), final(tree)@),
        is_menu(final(tree)@, Seq::<u64>::empty()),
        is_menu(final(tree)@, Seq::<u64>::empty().push(Key::Char('g').spec_code())),
        is_menu(final(tree)@, Seq::<u64>::empty()
            .push(Key::Char('g').spec_code())
            .push(Key::Char('f').spec_code())),
{
    let ghost start = tree@;
    let ghost root = Seq::<u64>::empty();
    let ghost menu_shift_d = Seq::<u64>::empty().push(Key::Char('D').spec_code());
    let done: Ghost<Seq<Row>> = Ghost(Seq::empty());
    let ghost path = seq![Key::Char('D'), Key::Char('b')];
    let done = bind(
        tree,
        Ghost(start),
        done,
        Ghost(menu_shift_d),
        Ghost(Key::Char('b')),
        "Duplicate",
        "Selection insert before destination",
        vec![Key::Char('D'), Key::Char('b')],
        Ghost(path),
        CommandTreeNode::new_action_with_children(Message::SaveSelection),
    );
    let ghost menu_shift_d_b = Seq::<u64>::empty()
        .push(Key::Char('D').spec_code())
        .push(Key::Char('b').spec_code());
    let ghost path = seq![Key::Char('D'), Key::Char('b'), Key::Enter];
    let done = bind(
        tree,
        Ghost(start),
        done,
        Ghost(menu_shift_d_b),
        Ghost(Key::Enter),
        "Duplicate insert before",
        "Select destination",
        vec![Key::Char('D'), Key::Char('b'), Key::Enter],
        Ghost(path),
        CommandTreeNode::new_action(
            Message::Duplicate {
                destination_type: DuplicateDestinationType::InsertBefore,
                destination: DuplicateDestination::Selection,
            },
        ),
    );
    let ghost path = seq![Key::Char('e')];
    let done = bind(
        tree,
        Ghost(start),
        done,
        Ghost(root),
        Ghost(Key::Char('e')),
        "Commands",
        "Edit",
        vec![Key::Char('e')],
        Ghost(path),
        CommandTreeNode::new_children(),
    );
    let ghost menu_e = Seq::<u64>::empty().push(Key::Char('e').spec_code());
    let ghost path = seq![Key::Char('e'), Key::Char('e')];
    let done = bind(
        tree,
        Ghost(start),
        done,
        Ghost(menu_e),
        Ghost(Key::Char('e')),
        "Edit",
        "Selection",
        vec![Key::Char('e'), Key::Char('e')],
        Ghost(path),
        CommandTreeNode::new_action(Message::Edit),
    );
    let ghost path = seq![Key::Char('E')];
    let done = bind(
        tree,
        Ghost(start),
        done,
        Ghost(root),
        Ghost(Key::Char('E')),
        "Commands",
        "Evolog",
        vec![Key::Char('E')],
        Ghost(path),
        CommandTreeNode::new_children(),
    );
    let ghost menu_shift_e = Seq::<u64>::empty().push(Key::Char('E').spec_code());
    let ghost path = seq![Key::Char('E'), Key::Char('e')];
    let done = bind(
        tree,
        Ghost(start),
        done,
        Ghost(menu_shift_e),
        Ghost(Key::Char('e')),
        "Evolog",
        "Selection",
        vec![Key::Char('E'), Key::Char('e')],
        Ghost(path),
        CommandTreeNode::new_action(Message::Evolog { patch: false }),
    );
    let ghost path = seq![Key::Char('E'), Key::Char('E')];
    let done = bind(
        tree,
        Ghost(start),
        done,
        Ghost(menu_shift_e),
        Ghost(Key::Char('E')),
        "Evolog",
        "Selection (patch)",
        vec![Key::Char('E'), Key::Char('E')],
        Ghost(path),
        CommandTreeNode::new_action(Message::Evolog { patch: true }),
    );
    let ghost path = seq![Key::Char('f')];
    let done = bind(
        tree,
        Ghost(start),
        done,
        Ghost(root),
        Ghost(Key::Char('f')),
        "Commands",
        "File",
        vec![Key::Char('f')],
        Ghost(path),
        CommandTreeNode::new_children(),
    );
    let ghost menu_f = Seq::<u64>::empty().push(Key::Char('f').spec_code());
    let ghost path = seq![Key::Char('f'), Key::Char('t')];
    let done = bind(
        tree,
        Ghost(start),
        done,
        Ghost(menu_f),
        Ghost(Key::Char('t')),
        "File",
        "Track (enter filepath)",
        vec![Key::Char('f'), Key::Char('t')],
        Ghost(path),
        CommandTreeNode::new_action(Message::FileTrack),
    );
    let ghost path = seq![Key::Char('f'), Key::Char('u')];
    let done = bind(
        tree,
        Ghost(start),
        done,
        Ghost(menu_f),
        Ghost(Key::Char('u')),
        "File",
        "Untrack selection (must be ignored)",
        vec![Key::Char('f'), Key::Char('u')],
        Ghost(path),
        CommandTreeNode::new_action(Message::FileUntrack),
    );
    let ghost path = seq![Key::Char('g')];
    let done = bind(
        tree,
        Ghost(start),
        done,
        Ghost(root),
        Ghost(Key::Char('g')),
        "Commands",
        "Git",
        vec![Key::Char('g')],
        Ghost(path),
        CommandTreeNode::new_children(),
    );
    let ghost menu_g = Seq::<u64>::empty().push(Key::Char('g').spec_code());
    let ghost path = seq![Key::Char('g'), Key::Char('f')];
    let done = bind(
        tree,
        Ghost(start),
        done,
        Ghost(menu_g),
        Ghost(Key::Char('f')),
        "Git",
        "Fetch",
        vec![Key::Char('g'), Key::Char('f')],
        Ghost(path),
        CommandTreeNode::new_children(),
    );
    let ghost menu_g_f = Seq::<u64>::empty()
        .push(Key::Char('g').spec_code())
        .push(Key::Char('f').spec_code());
    assert(done@ =~= rows_from_shift_d_b());
}

/// Rows 49 to 60 of the key table.
pub open spec fn rows_from_g_f_f() -> Seq<Row> {
    seq![
        Row {
            group: "Git fetch"@,
            text: "Default"@,
            keys: seq![Key::Char('g'), Key::Char('f'), Key::Char('f')],
            node: leaf_model(Some(Message::GitFetch { mode: GitFetchMode::Default }), false),
        },
        Row {
            group: "Git fetch"@,
            text: "All remotes"@,
            keys: seq![Key::Char('g'), Key::Char('f'), Key::Char('a')],
            node: leaf_model(Some(Message::GitFetch { mode: GitFetchMode::AllRemotes }), false),
        },
        Row {
            group: "Git fetch"@,
            text: "Tracked bookmarks"@,
            keys: seq![Key::Char('g'), Key::Char('f'), Key::Char('t')],
            node: leaf_model(
                Some(Message::GitFetch { mode: GitFetchMode::TrackedBookmarks }),
                false,
            ),
        },
        Row {
            group: "Git fetch"@,
            text: "Branch by name"@,
            keys: seq![Key::Char('g'), Key::Char('f'), Key::Char('b')],
            node: leaf_model(Some(Message::GitFetch { mode: GitFetchMode::Branch }), false),
        },
        Row {
            group: "Git fetch"@,
            text: "Remote by name"@,
            keys: seq![Key::Char('g'), Key::Char('f'), Key::Char('r')],
            node: leaf_model(Some(Message::GitFetch { mode: GitFetchMode::Remote }), false),
        },
        Row {
            group: "Git"@,
            text: "Push"@,
            keys: seq![Key::Char('g'), Key::Char('p')],
            node: leaf_model(None, true),
        },
        Row {
            group: "Git push"@,
            text: "Default"@,
            keys: seq![Key::Char('g'), Key::Char('p'), Key::Char('p')],
            node: leaf_model(Some(Message::GitPush { mode: GitPushMode::Default }), false),
        },
        Row {
            group: "Git push"@,
            text: "All bookmarks"@,
            keys: seq![Key::Char('g'), Key::Char('p'), Key::Char('a')],
            node: leaf_model(Some(Message::GitPush { mode: GitPushMode::All }), false),
        },
        Row {
            group: "Git push"@,
            text: "Bookmarks at selection"@,
            keys: seq![Key::Char('g'), Key::Char('p'), Key::Char('r')],
            node: leaf_model(Some(Message::GitPush { mode: GitPushMode::Revision }), false),
        },
        Row {
            group: "Git push"@,
            text: "Tracked bookmarks"@,
            keys: seq![Key::Char('g'), Key::Char('p'), Key::Char('t')],
            node: leaf_model(Some(Message::GitPush { mode: GitPushMode::TrackedBookmarks }), false),
        },
        Row {
            group: "Git push"@,
            text: "Deleted bookmarks"@,
            keys: seq![Key::Char('g'), Key::Char('p'), Key::Char('d')],
            node: leaf_model(Some(Message::GitPush { mode: GitPushMode::Deleted }), false),
        },
        Row {
            group: "Git push"@,
            text: "New bookmark for selection"@,
            keys: seq![Key::Char('g'), Key::Char('p'), Key::Char('c')],
            node: leaf_model(Some(Message::GitPush { mode: GitPushMode::Change }), false),
        },
    ]
}

fn bind_rows_from_g_f_f(tree: &mut CommandTree)
    requires
        is_menu(old(tree)@, Seq::<u64>::empty()),
        is_menu(old(tree)@, Seq::<u64>::empty().push(Key::Char('g').spec_code())),
        is_menu(old(tree)@, Seq::<u64>::empty()
            .push(Key::Char('g').spec_code())
            .push(Key::Char('f').spec_code())),
    ensures
        registered_rows(old(tree)@, rows_from_g_f_f(), final(tree)@),
        is_menu(final(tree)@, Seq::<u64>::empty()),
        is_menu(final(tree)@, Seq::<u64>::empty()
            .push(Key::Char('g').spec_code())
            .push(Key::Char('p').spec_code())),
{
    let ghost start = tree@;
    let ghost root = Seq::<u64>::empty();
    let ghost menu_g = Seq::<u64>::empty().push(Key::Char('g').spec_code());
    let ghost menu_g_f = Seq::<u64>::empty()
        .push(Key::Char('g').spec_code())
        .push(Key::Char('f').spec_code());
    let done: Ghost<Seq<Row>> = Ghost(Seq::empty());
    let ghost path = seq![Key::Char('g'), Key::Char('f'), Key::Char('f')];
    let done = bind(
        tree,
        Ghost(start),
        done,
        Ghost(menu_g_f),
        Ghost(Key::Char('f')),
        "Git fetch",
        "Default",
        vec![Key::Char('g'), Key::Char('f'), Key::Char('f')],
        Ghost(path),
        CommandTreeNode::new_action(Message::GitFetch { mode: GitFetchMode::Default }),
    );
    let ghost path = seq![Key::Char('g'), Key::Char('f'), Key::Char('a')];
    let done = bind(
        tree,
        Ghost(start),
        done,
        Ghost(menu_g_f),
        Ghost(Key::Char('a')),
        "Git fetch",
        "All remotes",
        vec![Key::Char('g'), Key::Char('f'), Key::Char('a')],
        Ghost(path),
        CommandTreeNode::new_action(Message::GitFetch { mode: GitFetchMode::AllRemotes }),
    );
    let ghost path = seq![Key::Char('g'), Key::Char('f'), Key::Char('t')];
    let done = bind(
        tree,
        Ghost(start),
        done,
        Ghost(menu_g_f),
        Ghost(Key::Char('t')),
        "Git fetch",
        "Tracked bookmarks",
        vec![Key::Char('g'), Key::Char('f'), Key::Char('t')],
        Ghost(path),
        CommandTreeNode::new_action(
            Message::GitFetch { mode: GitFetchMode::TrackedBookmarks },
        ),
    );
    let ghost path = seq![Key::Char('g'), Key::Char('f'), Key::Char('b')];
    let done = bind(
        tree,
        Ghost(start),
        done,
        Ghost(menu_g_f),
        Ghost(Key::Char('b')),
        "Git fetch",
        "Branch by name",
        vec![Key::Char('g'), Key::Char('f'), Key::Char('b')],
        Ghost(path),
        CommandTreeNode::new_action(Message::GitFetch { mode: GitFetchMode::Branch }),
    );
    let ghost path = seq![Key::Char('g'), Key::Char('f'), Key::Char('r')];
    let done = bind(
        tree,
        Ghost(start),
        done,
        Ghost(menu_g_f),
        Ghost(Key::Char('r')),
        "Git fetch",
        "Remote by name",
        vec![Key::Char('g'), Key::Char('f'), Key::Char('r')],
        Ghost(path),
        CommandTreeNode::new_action(Message::GitFetch { mode: GitFetchMode::Remote }),
    );
    let ghost path = seq![Key::Char('g'), Key::Char('p')];
    let done = bind(
        tree,
        Ghost(start),
        done,
        Ghost(menu_g),
        Ghost(Key::Char('p')),
        "Git",
        "Push",
        vec![Key::Char('g'), Key::Char('p')],
        Ghost(path),
        CommandTreeNode::new_children(),
    );
    let ghost menu_g_p = Seq::<u64>::empty()
        .push(Key::Char('g').spec_code())
        .push(Key::Char('p').spec_code());
    let ghost path = seq![Key::Char('g'), Key::Char('p'), Key::Char('p')];
    let done = bind(
        tree,
        Ghost(start),
        done,
        Ghost(menu_g_p),
        Ghost(Key::Char('p')),
        "Git push",
        "Default",
        vec![Key::Char('g'), Key::Char('p'), Key::Char('p')],
        Ghost(path),
        CommandTreeNode::new_action(Message::GitPush { mode: GitPushMode::Default }),
    );
    let ghost path = seq![Key::Char('g'), Key::Char('p'), Key::Char('a')];
    let done = bind(
        tree,
        Ghost(start),
        done,
        Ghost(menu_g_p),
        Ghost(Key::Char('a')),
        "Git push",
        "All bookmarks",
        vec![Key::Char('g'), Key::Char('p'), Key::Char('a')],
        Ghost(path),
        CommandTreeNode::new_action(Message::GitPush { mode: GitPushMode::All }),
    );
    let ghost path = seq![Key::Char('g'), Key::Char('p'), Key::Char('r')];
    let done = bind(
        tree,
        Ghost(start),
        done,
        Ghost(menu_g_p),
        Ghost(Key::Char('r')),
        "Git push",
        "Bookmarks at selection",
        vec![Key::Char('g'), Key::Char('p'), Key::Char('r')],
        Ghost(path),
        CommandTreeNode::new_action(Message::GitPush { mode: GitPushMode::Revision }),
    );
    let ghost path = seq![Key::Char('g'), Key::Char('p'), Key::Char('t')];
    let done = bind(
        tree,
        Ghost(start),
        done,
        Ghost(menu_g_p),
        Ghost(Key::Char('t')),
        "Git push",
        "Tracked bookmarks",
        vec![Key::Char('g'), Key::Char('p'), Key::Char('t')],
        Ghost(path),
        CommandTreeNode::new_action(Message::GitPush { mode: GitPushMode::TrackedBookmarks }),
    );
    let ghost path = seq![Key::Char('g'), Key::Char('p'), Key::Char('d')];
    let done = bind(
        tree,
        Ghost(start),
        done,
        Ghost(menu_g_p),
        Ghost(Key::Char('d')),
        "Git push",
        "Deleted bookmarks",
        vec![Key::Char('g'), Key::Char('p'), Key::Char('d')],
        Ghost(path),
        CommandTreeNode::new_action(Message::GitPush { mode: GitPushMode::Deleted }),
    );
    let ghost path = seq![Key::Char('g'), Key::Char('p'), Key::Char('c')];
    let done = bind(
        tree,
        Ghost(start),
        done,
        Ghost(menu_g_p),
        Ghost(Key::Char('c')),
        "Git push",
        "New bookmark for selection",
        vec![Key::Char('g'), Key::Char('p'), Key::Char('c')],
        Ghost(path),
        CommandTreeNode::new_action(Message::GitPush { mode: GitPushMode::Change }),
    );
    assert(done@ =~= rows_from_g_f_f());
}

/// Rows 61 to 72 of the key table.
pub open spec fn rows_from_g_p_n() -> Seq<Row> {
    seq![
        Row {
            group: "Git push"@,
            text: "New named bookmark for selection"@,
            keys: seq![Key::Char('g'), Key::Char('p'), Key::Char('n')],
            node: leaf_model(Some(Message::GitPush { mode: GitPushMode::Named }), false),
        },
        Row {
            group: "Git push"@,
            text: "Bookmark by name"@,
            keys: seq![Key::Char('g'), Key::Char('p'), Key::Char('b')],
            node: leaf_model(Some(Message::GitPush { mode: GitPushMode::Bookmark }), false),
        },
        Row {
            group: "Git push"@,
            text: "Tug and push bookmark"@,
            keys: seq![Key::Char('g'), Key::Char('p'), Key::Char('T')],
            node: leaf_model(Some(Message::TugAndGitPush), false),
        },
        Row {
            group: "Commands"@,
            text: "Interdiff"@,
            keys: seq![Key::Char('i')],
            node: leaf_model(None, true),
        },
        Row {
            group: "Interdiff"@,
            text: "From @ to selection"@,
            keys: seq![Key::Char('i'), Key::Char('t')],
            node: leaf_model(Some(Message::Interdiff { mode: InterdiffMode::ToSelection }), false),
        },
        Row {
            group: "Interdiff"@,
            text: "From selection to @"@,
            keys: seq![Key::Char('i'), Key::Char('f')],
            node: leaf_model(Some(Message::Interdiff { mode: InterdiffMode::FromSelection }), false),
        },
        Row {
            group: "Interdiff"@,
            text: "From selection to destination"@,
            keys: seq![Key::Char('i'), Key::Char('i')],
            node: leaf_model(Some(Message::SaveSelection), true),
        },
        Row {
            group: "Interdiff to destination"@,
            text: "Select destination"@,
            keys: seq![Key::Char('i'), Key::Char('i'), Key::Enter],
            node: leaf_model(
                Some(Message::Interdiff { mode: InterdiffMode::FromSelectionToDestination }),
                false,
            ),
        },
        Row {
            group: "Commands"@,
            text: "Metaedit"@,
            keys: seq![Key::Char('m')],
            node: leaf_model(None, true),
        },
        Row {
            group: "Metaedit"@,
            text: "Update change-id"@,
            keys: seq![Key::Char('m'), Key::Char('c')],
            node: leaf_model(
                Some(Message::Metaedit { action: MetaeditAction::UpdateChangeId }),
                false,
            ),
        },
        Row {
            group: "Metaedit"@,
            text: "Update author timestamp to now"@,
            keys: seq![Key::Char('m'), Key::Char('t')],
            node: leaf_model(
                Some(Message::Metaedit { action: MetaeditAction::UpdateAuthorTimestamp }),
                false,
            ),
        },
        Row {
            group: "Metaedit"@,
            text: "Update author to configured user"@,
            keys: seq![Key::Char('m'), Key::Char('a')],
            node: leaf_model(
                Some(Message::Metaedit { action: MetaeditAction::UpdateAuthor }),
                false,
            ),
        },
    ]
}

fn bind_rows_from_g_p_n(tree: &mut CommandTree)
    requires
        is_menu(old(tree)@, Seq::<u64>::empty()),
        is_menu(old(tree)@, Seq::<u64>::empty()
            .push(Key::Char('g').spec_code())
            .push(Key::Char('p').spec_code())),
    ensures
        registered_rows(old(tree)@, rows_from_g_p_n(), final(tree)@),
        is_menu(final(tree)@, Seq::<u64>::empty()),
        is_menu(final(tree)@, Seq::<u64>::empty().push(Key::Char('m').spec_code())),
{
    let ghost start = tree@;
    let ghost root = Seq::<u64>::empty();
    let ghost menu_g_p = Seq::<u64>::empty()
        .push(Key::Char('g').spec_code())
        .push(Key::Char('p').spec_code());
    let done: Ghost<Seq<Row>> = Ghost(Seq::empty());
    let ghost path = seq![Key::Char('g'), Key::Char('p'), Key::Char('n')];
    let done = bind(
        tree,
        Ghost(start),
        done,
        Ghost(menu_g_p),
        Ghost(Key::Char('n')),
        "Git push",
        "New named bookmark for selection",
        vec![Key::Char('g'), Key::Char('p'), Key::Char('n')],
        Ghost(path),
        CommandTreeNode::new_action(Message::GitPush { mode: GitPushMode::Named }),
    );
    let ghost path = seq![Key::Char('g'), Key::Char('p'), Key::Char('b')];
    let done = bind(
        tree,
        Ghost(start),
        done,
        Ghost(menu_g_p),
        Ghost(Key::Char('b')),
        "Git push",
        "Bookmark by name",
        vec![Key::Char('g'), Key::Char('p'), Key::Char('b')],
        Ghost(path),
        CommandTreeNode::new_action(Message::GitPush { mode: GitPushMode::Bookmark }),
    );
    let ghost path = seq![Key::Char('g'), Key::Char('p'), Key::Char('T')];
    let done = bind(
        tree,
        Ghost(start),
        done,
        Ghost(menu_g_p),
        Ghost(Key::Char('T')),
        "Git push",
        "Tug and push bookmark",
        vec![Key::Char('g'), Key::Char('p'), Key::Char('T')],
        Ghost(path),
        CommandTreeNode::new_action(Message::TugAndGitPush),
    );
    let ghost path = seq![Key::Char('i')];
    let done = bind(
        tree,
        Ghost(start),
        done,
        Ghost(root),
        Ghost(Key::Char('i')),
        "Commands",
        "Interdiff",
        vec![Key::Char('i')],
        Ghost(path),
        CommandTreeNode::new_children(),
    );
    let ghost menu_i = Seq::<u64>::empty().push(Key::Char('i').spec_code());
    let ghost path = seq![Key::Char('i'), Key::Char('t')];
    let done = bind(
        tree,
        Ghost(start),
        done,
        Ghost(menu_i),
        Ghost(Key::Char('t')),
        "Interdiff",
        "From @ to selection",
        vec![Key::Char('i'), Key::Char('t')],
        Ghost(path),
        CommandTreeNode::new_action(Message::Interdiff { mode: InterdiffMode::ToSelection }),
    );
    let ghost path = seq![Key::Char('i'), Key::Char('f')];
    let done = bind(
        tree,
        Ghost(start),
        done,
        Ghost(menu_i),
        Ghost(Key::Char('f')),
        "Interdiff",
        "From selection to @",
        vec![Key::Char('i'), Key::Char('f')],
        Ghost(path),
        CommandTreeNode::new_action(Message::Interdiff { mode: InterdiffMode::FromSelection }),
    );
    let ghost path = seq![Key::Char('i'), Key::Char('i')];
    let done = bind(
        tree,
        Ghost(start),
        done,
        Ghost(menu_i),
        Ghost(Key::Char('i')),
        "Interdiff",
        "From selection to destination",
        vec![Key::Char('i'), Key::Char('i')],
        Ghost(path),
        CommandTreeNode::new_action_with_children(Message::SaveSelection),
    );
    let ghost menu_i_i = Seq::<u64>::empty()
        .push(Key::Char('i').spec_code())
        .push(Key::Char('i').spec_code());
    let ghost path = seq![Key::Char('i'), Key::Char('i'), Key::Enter];
    let done = bind(
        tree,
        Ghost(start),
        done,
        Ghost(menu_i_i),
        Ghost(Key::Enter),
        "Interdiff to destination",
        "Select destination",
        vec![Key::Char('i'), Key::Char('i'), Key::Enter],
        Ghost(path),
        CommandTreeNode::new_action(
            Message::Interdiff { mode: InterdiffMode::FromSelectionToDestination },
        ),
    );
    let ghost path = seq![Key::Char('m')];
    let done = bind(
        tree,
        Ghost(start),
        done,
        Ghost(root),
        Ghost(Key::Char('m')),
        "Commands",
        "Metaedit",
        vec![Key::Char('m')],
        Ghost(path),
        CommandTreeNode::new_children(),
    );
    let ghost menu_m = Seq::<u64>::empty().push(Key::Char('m').spec_code());
    let ghost path = seq![Key::Char('m'), Key::Char('c')];
    let done = bind(
        tree,
        Ghost(start),
        done,
        Ghost(menu_m),
        Ghost(Key::Char('c')),
        "Metaedit",
        "Update change-id",
        vec![Key::Char('m'), Key::Char('c')],
        Ghost(path),
        CommandTreeNode::new_action(
            Message::Metaedit { action: MetaeditAction::UpdateChangeId },
        ),
    );
    let ghost path = seq![Key::Char('m'), Key::Char('t')];
    let done = bind(
        tree,
        Ghost(start),
        done,
        Ghost(menu_m),
        Ghost(Key::Char('t')),
        "Metaedit",
        "Update author timestamp to now",
        vec![Key::Char('m'), Key::Char('t')],
        Ghost(path),
        CommandTreeNode::new_action(
            Message::Metaedit { action: MetaeditAction::UpdateAuthorTimestamp },
        ),
    );
    let ghost path = seq![Key::Char('m'), Key::Char('a')];
    let done = bind(
        tree,
        Ghost(start),
        done,
        Ghost(menu_m),
        Ghost(Key::Char('a')),
        "Metaedit",
        "Update author to configured user",
        vec![Key::Char('m'), Key::Char('a')],
        Ghost(path),
        CommandTreeNode::new_action(
            Message::Metaedit { action: MetaeditAction::UpdateAuthor },
        ),
    );
    assert(done@ =~= rows_from_g_p_n());
}

/// Rows 73 to 84 of the key table.
pub open spec fn rows_from_m_shift_a() -> Seq<Row> {
    seq![
        Row {
            group: "Metaedit"@,
            text: "Set author"@,
            keys: seq![Key::Char('m'), Key::Char('A')],
            node: leaf_model(Some(Message::Metaedit { action: MetaeditAction::SetAuthor }), false),
        },
        Row {
            group: "Metaedit"@,
            text: "Set author timestamp"@,
            keys: seq![Key::Char('m'), Key::Char('T')],
            node: leaf_model(
                Some(Message::Metaedit { action: MetaeditAction::SetAuthorTimestamp }),
                false,
            ),
        },
        Row {
            group: "Metaedit"@,
            text: "Force rewrite"@,
            keys: seq![Key::Char('m'), Key::Char('r')],
            node: leaf_model(
                Some(Message::Metaedit { action: MetaeditAction::ForceRewrite }),
                false,
            ),
        },
        Row {
            group: "Commands"@,
            text: "New"@,
            keys: seq![Key::Char('n')],
            node: leaf_model(None, true),
        },
        Row {
            group: "New"@,
            text: "After selection"@,
            keys: seq![Key::Char('n'), Key::Char('n')],
            node: leaf_model(Some(Message::New { mode: NewMode::Default }), false),
        },
        Row {
            group: "New"@,
            text: "After selection (rebase children)"@,
            keys: seq![Key::Char('n'), Key::Char('a')],
            node: leaf_model(Some(Message::New { mode: NewMode::InsertAfter }), false),
        },
        Row {
            group: "New"@,
            text: "Before selection (rebase children)"@,
            keys: seq![Key::Char('n'), Key::Char('b')],
            node: leaf_model(Some(Message::New { mode: NewMode::Before }), false),
        },
        Row {
            group: "New"@,
            text: "After trunk"@,
            keys: seq![Key::Char('n'), Key::Char('m')],
            node: leaf_model(Some(Message::New { mode: NewMode::AfterTrunk }), false),
        },
        Row {
            group: "New"@,
            text: "After trunk (sync)"@,
            keys: seq![Key::Char('n'), Key::Char('M')],
            node: leaf_model(Some(Message::NewAfterTrunkSync), false),
        },
        Row {
            group: "Commands"@,
            text: "Next"@,
            keys: seq![Key::Char('N')],
            node: leaf_model(None, true),
        },
        Row {
            group: "Commands"@,
            text: "Parallelize"@,
            keys: seq![Key::Char('p')],
            node: leaf_model(None, true),
        },
        Row {
            group: "Parallelize"@,
            text: "Selection with parent"@,
            keys: seq![Key::Char('p'), Key::Char('p')],
            node: leaf_model(
                Some(Message::Parallelize { source: ParallelizeSource::Selection }),
                false,
            ),
        },
    ]
}

fn bind_rows_from_m_shift_a(tree: &mut CommandTree)
    requires
        is_menu(old(tree)@, Seq::<u64>::empty()),
        is_menu(old(tree)@, Seq::<u64>::empty().push(Key::Char('m').spec_code())),
    ensures
        registered_rows(old(tree)@, rows_from_m_shift_a(), final(tree)@),
        is_menu(final(tree)@, Seq::<u64>::empty()),
        is_menu(final(tree)@, Seq::<u64>::empty().push(Key::Char('p').spec_code())),
        is_menu(final(tree)@, Seq::<u64>::empty().push(Key::Char('N').spec_code())),
{
    let ghost start = tree@;
    let ghost root = Seq::<u64>::empty();
    let ghost menu_m = Seq::<u64>::empty().push(Key::Char('m').spec_code());
    let done: Ghost<Seq<Row>> = Ghost(Seq::empty());
    let ghost path = seq![Key::Char('m'), Key::Char('A')];
    let done = bind(
        tree,
        Ghost(start),
        done,
        Ghost(menu_m),
        Ghost(Key::Char('A')),
        "Metaedit",
        "Set author",
        vec![Key::Char('m'), Key::Char('A')],
        Ghost(path),
        CommandTreeNode::new_action(Message::Metaedit { action: MetaeditAction::SetAuthor }),
    );
    let ghost path = seq![Key::Char('m'), Key::Char('T')];
    let done = bind(
        tree,
        Ghost(start),
        done,
        Ghost(menu_m),
        Ghost(Key::Char('T')),
        "Metaedit",
        "Set author timestamp",
        vec![Key::Char('m'), Key::Char('T')],
        Ghost(path),
        CommandTreeNode::new_action(
            Message::Metaedit { action: MetaeditAction::SetAuthorTimestamp },
        ),
    );
    let ghost path = seq![Key::Char('m'), Key::Char('r')];
    let done = bind(
        tree,
        Ghost(start),
        done,
        Ghost(menu_m),
        Ghost(Key::Char('r')),
        "Metaedit",
        "Force rewrite",
        vec![Key::Char('m'), Key::Char('r')],
        Ghost(path),
        CommandTreeNode::new_action(
            Message::Metaedit { action: MetaeditAction::ForceRewrite },
        ),
    );
    let ghost path = seq![Key::Char('n')];
    let done = bind(
        tree,
        Ghost(start),
        done,
        Ghost(root),
        Ghost(Key::Char('n')),
        "Commands",
        "New",
        vec![Key::Char('n')],
        Ghost(path),
        CommandTreeNode::new_children(),
    );
    let ghost menu_n = Seq::<u64>::empty().push(Key::Char('n').spec_code());
    let ghost path = seq![Key::Char('n'), Key::Char('n')];
    let done = bind(
        tree,
        Ghost(start),
        done,
        Ghost(menu_n),
        Ghost(Key::Char('n')),
        "New",
        "After selection",
        vec![Key::Char('n'), Key::Char('n')],
        Ghost(path),
        CommandTreeNode::new_action(Message::New { mode: NewMode::Default }),
    );
    let ghost path = seq![Key::Char('n'), Key::Char('a')];
    let done = bind(
        tree,
        Ghost(start),
        done,
        Ghost(menu_n),
        Ghost(Key::Char('a')),
        "New",
        "After selection (rebase children)",
        vec![Key::Char('n'), Key::Char('a')],
        Ghost(path),
        CommandTreeNode::new_action(Message::New { mode: NewMode::InsertAfter }),
    );
    let ghost path = seq![Key::Char('n'), Key::Char('b')];
    let done = bind(
        tree,
        Ghost(start),
        done,
        Ghost(menu_n),
        Ghost(Key::Char('b')),
        "New",
        "Before selection (rebase children)",
        vec![Key::Char('n'), Key::Char('b')],
        Ghost(path),
        CommandTreeNode::new_action(Message::New { mode: NewMode::Before }),
    );
    let ghost path = seq![Key::Char('n'), Key::Char('m')];
    let done = bind(
        tree,
        Ghost(start),
        done,
        Ghost(menu_n),
        Ghost(Key::Char('m')),
        "New",
        "After trunk",
        vec![Key::Char('n'), Key::Char('m')],
        Ghost(path),
        CommandTreeNode::new_action(Message::New { mode: NewMode::AfterTrunk }),
    );
    let ghost path = seq![Key::Char('n'), Key::Char('M')];
    let done = bind(
        tree,
        Ghost(start),
        done,
        Ghost(menu_n),
        Ghost(Key::Char('M')),
        "New",
        "After trunk (sync)",
        vec![Key::Char('n'), Key::Char('M')],
        Ghost(path),
        CommandTreeNode::new_action(Message::NewAfterTrunkSync),
    );
    let ghost path = seq![Key::Char('N')];
    let done = bind(
        tree,
        Ghost(start),
        done,
        Ghost(root),
        Ghost(Key::Char('N')),
        "Commands",
        "Next",
        vec![Key::Char('N')],
        Ghost(path),
        CommandTreeNode::new_children(),
    );
    let ghost menu_shift_n = Seq::<u64>::empty().push(Key::Char('N').spec_code());
    let ghost path = seq![Key::Char('p')];
    let done = bind(
        tree,
        Ghost(start),
        done,
        Ghost(root),
        Ghost(Key::Char('p')),
        "Commands",
        "Parallelize",
        vec![Key::Char('p')],
        Ghost(path),
        CommandTreeNode::new_children(),
    );
    let ghost menu_p = Seq::<u64>::empty().push(Key::Char('p').spec_code());
    let ghost path = seq![Key::Char('p'), Key::Char('p')];
    let done = bind(
        tree,
        Ghost(start),
        done,
        Ghost(menu_p),
        Ghost(Key::Char('p')),
        "Parallelize",
        "Selection with parent",
        vec![Key::Char('p'), Key::Char('p')],
        Ghost(path),
        CommandTreeNode::new_action(
            Message::Parallelize { source: ParallelizeSource::Selection },
        ),
    );
    assert(done@ =~= rows_from_m_shift_a());
}

/// Rows 85 to 96 of the key table.
pub open spec fn rows_from_p_shift_p() -> Seq<Row> {
    seq![
        Row {
            group: "Parallelize"@,
            text: "From selection to destination"@,
            keys: seq![Key::Char('p'), Key::Char('P')],
            node: leaf_model(Some(Message::SaveSelection), true),
        },
        Row {
            group: "Parallelize range"@,
            text: "Select destination"@,
            keys: seq![Key::Char('p'), Key::Char('P'), Key::Enter],
            node: leaf_model(Some(Message::Parallelize { source: ParallelizeSource::Range }), false),
        },
        Row {
            group: "Parallelize"@,
            text: "Revset"@,
            keys: seq![Key::Char('p'), Key::Char('r')],
            node: leaf_model(
                Some(Message::Parallelize { source: ParallelizeSource::Revset }),
                false,
            ),
        },
        Row {
            group: "Next"@,
            text: "Next"@,
            keys: seq![Key::Char('N'), Key::Char('n')],
            node: leaf_model(
                Some(
                    Message::NextPrev {
                        direction: NextPrevDirection::Next,
                        mode: NextPrevMode::Default,
                        offset: false,
                    },
                ),
                false,
            ),
        },
        Row {
            group: "Next"@,
            text: "Nth next"@,
            keys: seq![Key::Char('N'), Key::Char('N')],
            node: leaf_model(
                Some(
                    Message::NextPrev {
                        direction: NextPrevDirection::Next,
                        mode: NextPrevMode::Default,
                        offset: true,
                    },
                ),
                false,
            ),
        },
        Row {
            group: "Next"@,
            text: "Next (edit)"@,
            keys: seq![Key::Char('N'), Key::Char('e')],
            node: leaf_model(
                Some(
                    Message::NextPrev {
                        direction: NextPrevDirection::Next,
                        mode: NextPrevMode::Edit,
                        offset: false,
                    },
                ),
                false,
            ),
        },
        Row {
            group: "Next"@,
            text: "Nth next (edit)"@,
            keys: seq![Key::Char('N'), Key::Char('E')],
            node: leaf_model(
                Some(
                    Message::NextPrev {
                        direction: NextPrevDirection::Next,
                        mode: NextPrevMode::Edit,
                        offset: true,
                    },
                ),
                false,
            ),
        },
        Row {
            group: "Next"@,
            text: "Next (no-edit)"@,
            keys: seq![Key::Char('N'), Key::Char('x')],
            node: leaf_model(
                Some(
                    Message::NextPrev {
                        direction: NextPrevDirection::Next,
                        mode: NextPrevMode::NoEdit,
                        offset: false,
                    },
                ),
                false,
            ),
        },
        Row {
            group: "Next"@,
            text: "Nth next (no-edit)"@,
            keys: seq![Key::Char('N'), Key::Char('X')],
            node: leaf_model(
                Some(
                    Message::NextPrev {
                        direction: NextPrevDirection::Next,
                        mode: NextPrevMode::NoEdit,
                        offset: true,
                    },
                ),
                false,
            ),
        },
        Row {
            group: "Next"@,
            text: "Next conflict"@,
            keys: seq![Key::Char('N'), Key::Char('c')],
            node: leaf_model(
                Some(
                    Message::NextPrev {
                        direction: NextPrevDirection::Next,
                        mode: NextPrevMode::Conflict,
                        offset: false,
                    },
                ),
                false,
            ),
        },
        Row {
            group: "Commands"@,
            text: "Previous"@,
            keys: seq![Key::Char('P')],
            node: leaf_model(None, true),
        },
        Row {
            group: "Previous"@,
            text: "Previous"@,
            keys: seq![Key::Char('P'), Key::Char('p')],
            node: leaf_model(
                Some(
                    Message::NextPrev {
                        direction: NextPrevDirection::Prev,
                        mode: NextPrevMode::Default,
                        offset: false,
                    },
                ),
                false,
            ),
        },
    ]
}

fn bind_rows_from_p_shift_p(tree: &mut CommandTree)
    requires
        is_menu(old(tree)@, Seq::<u64>::empty()),
        is_menu(old(tree)@, Seq::<u64>::empty().push(Key::Char('p').spec_code())),
        is_menu(old(tree)@, Seq::<u64>::empty().push(Key::Char('N').spec_code())),
    ensures
        registered_rows(old(tree)@, rows_from_p_shift_p(), final(tree)@),
        is_menu(final(tree)@, Seq::<u64>::empty()),
        is_menu(final(tree)@, Seq::<u64>::empty().push(Key::Char('P').spec_code())),
{
    let ghost start = tree@;
    let ghost root = Seq::<u64>::empty();
    let ghost menu_p = Seq::<u64>::empty().push(Key::Char('p').spec_code());
    let ghost menu_shift_n = Seq::<u64>::empty().push(Key::Char('N').spec_code());
    let done: Ghost<Seq<Row>> = Ghost(Seq::empty());
    let ghost path = seq![Key::Char('p'), Key::Char('P')];
    let done = bind(
        tree,
        Ghost(start),
        done,
        Ghost(menu_p),
        Ghost(Key::Char('P')),
        "Parallelize",
        "From selection to destination",
        vec![Key::Char('p'), Key::Char('P')],
        Ghost(path),
        CommandTreeNode::new_action_with_children(Message::SaveSelection),
    );
    let ghost menu_p_shift_p = Seq::<u64>::empty()
        .push(Key::Char('p').spec_code())
        .push(Key::Char('P').spec_code());
    let ghost path = seq![Key::Char('p'), Key::Char('P'), Key::Enter];
    let done = bind(
        tree,
        Ghost(start),
        done,
        Ghost(menu_p_shift_p),
        Ghost(Key::Enter),
        "Parallelize range",
        "Select destination",
        vec![Key::Char('p'), Key::Char('P'), Key::Enter],
        Ghost(path),
        CommandTreeNode::new_action(Message::Parallelize { source: ParallelizeSource::Range }),
    );
    let ghost path = seq![Key::Char('p'), Key::Char('r')];
    let done = bind(
        tree,
        Ghost(start),
        done,
        Ghost(menu_p),
        Ghost(Key::Char('r')),
        "Parallelize",
        "Revset",
        vec![Key::Char('p'), Key::Char('r')],
        Ghost(path),
        CommandTreeNode::new_action(
            Message::Parallelize { source: ParallelizeSource::Revset },
        ),
    );
    let ghost path = seq![Key::Char('N'), Key::Char('n')];
    let done = bind(
        tree,
        Ghost(start),
        done,
        Ghost(menu_shift_n),
        Ghost(Key::Char('n')),
        "Next",
        "Next",
        vec![Key::Char('N'), Key::Char('n')],
        Ghost(path),
        CommandTreeNode::new_action(
            Message::NextPrev {
                direction: NextPrevDirection::Next,
                mode: NextPrevMode::Default,
                offset: false,
            },
        ),
    );
    let ghost path = seq![Key::Char('N'), Key::Char('N')];
    let done = bind(
        tree,
        Ghost(start),
        done,
        Ghost(menu_shift_n),
        Ghost(Key::Char('N')),
        "Next",
        "Nth next",
        vec![Key::Char('N'), Key::Char('N')],
        Ghost(path),
        CommandTreeNode::new_action(
            Message::NextPrev {
                direction: NextPrevDirection::Next,
                mode: NextPrevMode::Default,
                offset: true,
            },
        ),
    );
    let ghost path = seq![Key::Char('N'), Key::Char('e')];
    let done = bind(
        tree,
        Ghost(start),
        done,
        Ghost(menu_shift_n),
        Ghost(Key::Char('e')),
        "Next",
        "Next (edit)",
        vec![Key::Char('N'), Key::Char('e')],
        Ghost(path),
        CommandTreeNode::new_action(
            Message::NextPrev {
                direction: NextPrevDirection::Next,
                mode: NextPrevMode::Edit,
                offset: false,
            },
        ),
    );
    let ghost path = seq![Key::Char('N'), Key::Char('E')];
    let done = bind(
        tree,
        Ghost(start),
        done,
        Ghost(menu_shift_n),
        Ghost(Key::Char('E')),
        "Next",
        "Nth next (edit)",
        vec![Key::Char('N'), Key::Char('E')],
        Ghost(path),
        CommandTreeNode::new_action(
            Message::NextPrev {
                direction: NextPrevDirection::Next,
                mode: NextPrevMode::Edit,
                offset: true,
            },
        ),
    );
    let ghost path = seq![Key::Char('N'), Key::Char('x')];
    let done = bind(
        tree,
        Ghost(start),
        done,
        Ghost(menu_shift_n),
        Ghost(Key::Char('x')),
        "Next",
        "Next (no-edit)",
        vec![Key::Char('N'), Key::Char('x')],
        Ghost(path),
        CommandTreeNode::new_action(
            Message::NextPrev {
                direction: NextPrevDirection::Next,
                mode: NextPrevMode::NoEdit,
                offset: false,
            },
        ),
    );
    let ghost path = seq![Key::Char('N'), Key::Char('X')];
    let done = bind(
        tree,
        Ghost(start),
        done,
        Ghost(menu_shift_n),
        Ghost(Key::Char('X')),
        "Next",
        "Nth next (no-edit)",
        vec![Key::Char('N'), Key::Char('X')],
        Ghost(path),
        CommandTreeNode::new_action(
            Message::NextPrev {
                direction: NextPrevDirection::Next,
                mode: NextPrevMode::NoEdit,
                offset: true,
            },
        ),
    );
    let ghost path = seq![Key::Char('N'), Key::Char('c')];
    let done = bind(
        tree,
        Ghost(start),
        done,
        Ghost(menu_shift_n),
        Ghost(Key::Char('c')),
        "Next",
        "Next conflict",
        vec![Key::Char('N'), Key::Char('c')],
        Ghost(path),
        CommandTreeNode::new_action(
            Message::NextPrev {
                direction: NextPrevDirection::Next,
                mode: NextPrevMode::Conflict,
                offset: false,
            },
        ),
    );
    let ghost path = seq![Key::Char('P')];
    let done = bind(
        tree,
        Ghost(start),
        done,
        Ghost(root),
        Ghost(Key::Char('P')),
        "Commands",
        "Previous",
        vec![Key::Char('P')],
        Ghost(path),
        CommandTreeNode::new_children(),
    );
    let ghost menu_shift_p = Seq::<u64>::empty().push(Key::Char('P').spec_code());
    let ghost path = seq![Key::Char('P'), Key::Char('p')];
    let done = bind(
        tree,
        Ghost(start),
        done,
        Ghost(menu_shift_p),
        Ghost(Key::Char('p')),
        "Previous",
        "Previous",
        vec![Key::Char('P'), Key::Char('p')],
        Ghost(path),
        CommandTreeNode::new_action(
            Message::NextPrev {
                direction: NextPrevDirection::Prev,
                mode: NextPrevMode::Default,
                offset: false,
            },
        ),
    );
    assert(done@ =~= rows_from_p_shift_p());
}

/// Rows 97 to 108 of the key table.
pub open spec fn rows_from_shift_p_shift_p() -> Seq<Row> {
    seq![
        Row {
            group: "Previous"@,
            text: "Nth previous"@,
            keys: seq![Key::Char('P'), Key::Char('P')],
            node: leaf_model(
                Some(
                    Message::NextPrev {
                        direction: NextPrevDirection::Prev,
                        mode: NextPrevMode::Default,
                        offset: true,
                    },
                ),
                false,
            ),
        },
        Row {
            group: "Previous"@,
            text: "Previous (edit)"@,
            keys: seq![Key::Char('P'), Key::Char('e')],
            node: leaf_model(
                Some(
                    Message::NextPrev {
                        direction: NextPrevDirection::Prev,
                        mode: NextPrevMode::Edit,
                        offset: false,
                    },
                ),
                false,
            ),
        },
        Row {
            group: "Previous"@,
            text: "Nth previous (edit)"@,
            keys: seq![Key::Char('P'), Key::Char('E')],
            node: leaf_model(
                Some(
                    Message::NextPrev {
                        direction: NextPrevDirection::Prev,
                        mode: NextPrevMode::Edit,
                        offset: true,
                    },
                ),
                false,
            ),
        },
        Row {
            group: "Previous"@,
            text: "Previous (no-edit)"@,
            keys: seq![Key::Char('P'), Key::Char('x')],
            node: leaf_model(
                Some(
                    Message::NextPrev {
                        direction: NextPrevDirection::Prev,
                        mode: NextPrevMode::NoEdit,
                        offset: false,
                    },
                ),
                false,
            ),
        },
        Row {
            group: "Previous"@,
            text: "Nth previous (no-edit)"@,
            keys: seq![Key::Char('P'), Key::Char('X')],
            node: leaf_model(
                Some(
                    Message::NextPrev {
                        direction: NextPrevDirection::Prev,
                        mode: NextPrevMode::NoEdit,
                        offset: true,
                    },
                ),
                false,
            ),
        },
        Row {
            group: "Previous"@,
            text: "Previous conflict"@,
            keys: seq![Key::Char('P'), Key::Char('c')],
            node: leaf_model(
                Some(
                    Message::NextPrev {
                        direction: NextPrevDirection::Prev,
                        mode: NextPrevMode::Conflict,
                        offset: false,
                    },
                ),
                false,
            ),
        },
        Row {
            group: "Commands"@,
            text: "Squash"@,
            keys: seq![Key::Char('s')],
            node: leaf_model(None, true),
        },
        Row {
            group: "Squash"@,
            text: "Selection into parent"@,
            keys: seq![Key::Char('s'), Key::Char('s')],
            node: leaf_model(Some(Message::Squash { mode: SquashMode::Default }), false),
        },
        Row {
            group: "Squash"@,
            text: "Selection into destination"@,
            keys: seq![Key::Char('s'), Key::Char('i')],
            node: leaf_model(Some(Message::SaveSelection), true),
        },
        Row {
            group: "Squash into"@,
            text: "Select destination"@,
            keys: seq![Key::Char('s'), Key::Char('i'), Key::Enter],
            node: leaf_model(Some(Message::Squash { mode: SquashMode::Into }), false),
        },
        Row {
            group: "Commands"@,
            text: "Status"@,
            keys: seq![Key::Char('t')],
            node: leaf_model(Some(Message::Status), false),
        },
        Row {
            group: "Commands"@,
            text: "Split"@,
            keys: seq![Key::Char('/')],
            node: leaf_model(Some(Message::Split), false),
        },
    ]
}

fn bind_rows_from_shift_p_shift_p(tree: &mut CommandTree)
    requires
        is_menu(old(tree)@, Seq::<u64>::empty()),
        is_menu(old(tree)@, Seq::<u64>::empty().push(Key::Char('P').spec_code())),
    ensures
        registered_rows(old(tree)@, rows_from_shift_p_shift_p(), final(tree)@),
        is_menu(final(tree)@, Seq::<u64>::empty()),
{
    let ghost start = tree@;
    let ghost root = Seq::<u64>::empty();
    let ghost menu_shift_p = Seq::<u64>::empty().push(Key::Char('P').spec_code());
    let done: Ghost<Seq<Row>> = Ghost(Seq::empty());
    let ghost path = seq![Key::Char('P'), Key::Char('P')];
    let done = bind(
        tree,
        Ghost(start),
        done,
        Ghost(menu_shift_p),
        Ghost(Key::Char('P')),
        "Previous",
        "Nth previous",
        vec![Key::Char('P'), Key::Char('P')],
        Ghost(path),
        CommandTreeNode::new_action(
            Message::NextPrev {
                direction: NextPrevDirection::Prev,
                mode: NextPrevMode::Default,
                offset: true,
            },
        ),
    );
    let ghost path = seq![Key::Char('P'), Key::Char('e')];
    let done = bind(
        tree,
        Ghost(start),
        done,
        Ghost(menu_shift_p),
        Ghost(Key::Char('e')),
        "Previous",
        "Previous (edit)",
        vec![Key::Char('P'), Key::Char('e')],
        Ghost(path),
        CommandTreeNode::new_action(
            Message::NextPrev {
                direction: NextPrevDirection::Prev,
                mode: NextPrevMode::Edit,
                offset: false,
            },
        ),
    );
    let ghost path = seq![Key::Char('P'), Key::Char('E')];
    let done = bind(
        tree,
        Ghost(start),
        done,
        Ghost(menu_shift_p),
        Ghost(Key::Char('E')),
        "Previous",
        "Nth previous (edit)",
        vec![Key::Char('P'), Key::Char('E')],
        Ghost(path),
        CommandTreeNode::new_action(
            Message::NextPrev {
                direction: NextPrevDirection::Prev,
                mode: NextPrevMode::Edit,
                offset: true,
            },
        ),
    );
    let ghost path = seq![Key::Char('P'), Key::Char('x')];
    let done = bind(
        tree,
        Ghost(start),
        done,
        Ghost(menu_shift_p),
        Ghost(Key::Char('x')),
        "Previous",
        "Previous (no-edit)",
        vec![Key::Char('P'), Key::Char('x')],
        Ghost(path),
        CommandTreeNode::new_action(
            Message::NextPrev {
                direction: NextPrevDirection::Prev,
                mode: NextPrevMode::NoEdit,
                offset: false,
            },
        ),
    );
    let ghost path = seq![Key::Char('P'), Key::Char('X')];
    let done = bind(
        tree,
        Ghost(start),
        done,
        Ghost(menu_shift_p),
        Ghost(Key::Char('X')),
        "Previous",
        "Nth previous (no-edit)",
        vec![Key::Char('P'), Key::Char('X')],
        Ghost(path),
        CommandTreeNode::new_action(
            Message::NextPrev {
                direction: NextPrevDirection::Prev,
                mode: NextPrevMode::NoEdit,
                offset: true,
            },
        ),
    );
    let ghost path = seq![Key::Char('P'), Key::Char('c')];
    let done = bind(
        tree,
        Ghost(start),
        done,
        Ghost(menu_shift_p),
        Ghost(Key::Char('c')),
        "Previous",
        "Previous conflict",
        vec![Key::Char('P'), Key::Char('c')],
        Ghost(path),
        CommandTreeNode::new_action(
            Message::NextPrev {
                direction: NextPrevDirection::Prev,
                mode: NextPrevMode::Conflict,
                offset: false,
            },
        ),
    );
    let ghost path = seq![Key::Char('s')];
    let done = bind(
        tree,
        Ghost(start),
        done,
        Ghost(root),
        Ghost(Key::Char('s')),
        "Commands",
        "Squash",
        vec![Key::Char('s')],
        Ghost(path),
        CommandTreeNode::new_children(),
    );
    let ghost menu_s = Seq::<u64>::empty().push(Key::Char('s').spec_code());
    let ghost path = seq![Key::Char('s'), Key::Char('s')];
    let done = bind(
        tree,
        Ghost(start),
        done,
        Ghost(menu_s),
        Ghost(Key::Char('s')),
        "Squash",
        "Selection into parent",
        vec![Key::Char('s'), Key::Char('s')],
        Ghost(path),
        CommandTreeNode::new_action(Message::Squash { mode: SquashMode::Default }),
    );
    let ghost path = seq![Key::Char('s'), Key::Char('i')];
    let done = bind(
        tree,
        Ghost(start),
        done,
        Ghost(menu_s),
        Ghost(Key::Char('i')),
        "Squash",
        "Selection into destination",
        vec![Key::Char('s'), Key::Char('i')],
        Ghost(path),
        CommandTreeNode::new_action_with_children(Message::SaveSelection),
    );
    let ghost menu_s_i = Seq::<u64>::empty()
        .push(Key::Char('s').spec_code())
        .push(Key::Char('i').spec_code());
    let ghost path = seq![Key::Char('s'), Key::Char('i'), Key::Enter];
    let done = bind(
        tree,
        Ghost(start),
        done,
        Ghost(menu_s_i),
        Ghost(Key::Enter),
        "Squash into",
        "Select destination",
        vec![Key::Char('s'), Key::Char('i'), Key::Enter],
        Ghost(path),
        CommandTreeNode::new_action(Message::Squash { mode: SquashMode::Into }),
    );
    let ghost path = seq![Key::Char('t')];
    let done = bind(
        tree,
        Ghost(start),
        done,
        Ghost(root),
        Ghost(Key::Char('t')),
        "Commands",
        "Status",
        vec![Key::Char('t')],
        Ghost(path),
        CommandTreeNode::new_action(Message::Status),
    );
    let ghost path = seq![Key::Char('/')];
    let done = bind(
        tree,
        Ghost(start),
        done,
        Ghost(root),
        Ghost(Key::Char('/')),
        "Commands",
        "Split",
        vec![Key::Char('/')],
        Ghost(path),
        CommandTreeNode::new_action(Message::Split),
    );
    assert(done@ =~= rows_from_shift_p_shift_p());
}

/// Rows 109 to 120 of the key table.
pub open spec fn rows_from_shift_s() -> Seq<Row> {
    seq![
        Row {
            group: "Commands"@,
            text: "Sign"@,
            keys: seq![Key::Char('S')],
            node: leaf_model(None, true),
        },
        Row {
            group: "Sign"@,
            text: "Selection"@,
            keys: seq![Key::Char('S'), Key::Char('s')],
            node: leaf_model(Some(Message::Sign { action: SignAction::Sign, range: false }), false),
        },
        Row {
            group: "Sign"@,
            text: "From selection to destination"@,
            keys: seq![Key::Char('S'), Key::Char('S')],
            node: leaf_model(Some(Message::SaveSelection), true),
        },
        Row {
            group: "Sign range"@,
            text: "Select destination"@,
            keys: seq![Key::Char('S'), Key::Char('S'), Key::Enter],
            node: leaf_model(Some(Message::Sign { action: SignAction::Sign, range: true }), false),
        },
        Row {
            group: "Sign"@,
            text: "Unsign selection"@,
            keys: seq![Key::Char('S'), Key::Char('u')],
            node: leaf_model(
                Some(Message::Sign { action: SignAction::Unsign, range: false }),
                false,
            ),
        },
        Row {
            group: "Sign"@,
            text: "Unsign from selection to destination"@,
            keys: seq![Key::Char('S'), Key::Char('U')],
            node: leaf_model(Some(Message::SaveSelection), true),
        },
        Row {
            group: "Unsign range"@,
            text: "Select destination"@,
            keys: seq![Key::Char('S'), Key::Char('U'), Key::Enter],
            node: leaf_model(Some(Message::Sign { action: SignAction::Unsign, range: true }), false),
        },
        Row {
            group: "Commands"@,
            text: "Simplify parents"@,
            keys: seq![Key::Char('y')],
            node: leaf_model(None, true),
        },
        Row {
            group: "Simplify parents of"@,
            text: "Selection"@,
            keys: seq![Key::Char('y'), Key::Char('y')],
            node: leaf_model(
                Some(Message::SimplifyParents { mode: SimplifyParentsMode::Revisions }),
                false,
            ),
        },
        Row {
            group: "Simplify parents of"@,
            text: "Selection with descendants"@,
            keys: seq![Key::Char('y'), Key::Char('Y')],
            node: leaf_model(
                Some(Message::SimplifyParents { mode: SimplifyParentsMode::Source }),
                false,
            ),
        },
        Row {
            group: "Commands"@,
            text: "Rebase"@,
            keys: seq![Key::Char('r')],
            node: leaf_model(None, true),
        },
        Row {
            group: "Rebase"@,
            text: "Selected branch"@,
            keys: seq![Key::Char('r'), Key::Char('b')],
            node: leaf_model(Some(Message::SaveSelection), true),
        },
    ]
}

fn bind_rows_from_shift_s(tree: &mut CommandTree)
    requires
        is_menu(old(tree)@, Seq::<u64>::empty()),
    ensures
        registered_rows(old(tree)@, rows_from_shift_s(), final(tree)@),
        is_menu(final(tree)@, Seq::<u64>::empty()),
        is_menu(final(tree)@, Seq::<u64>::empty().push(Key::Char('r').spec_code())),
        is_menu(final(tree)@, Seq::<u64>::empty()
            .push(Key::Char('r').spec_code())
            .push(Key::Char('b').spec_code())),
{
    let ghost start = tree@;
    let ghost root = Seq::<u64>::empty();
    let done: Ghost<Seq<Row>> = Ghost(Seq::empty());
    let ghost path = seq![Key::Char('S')];
    let done = bind(
        tree,
        Ghost(start),
        done,
        Ghost(root),
        Ghost(Key::Char('S')),
        "Commands",
        "Sign",
        vec![Key::Char('S')],
        Ghost(path),
        CommandTreeNode::new_children(),
    );
    let ghost menu_shift_s = Seq::<u64>::empty().push(Key::Char('S').spec_code());
    let ghost path = seq![Key::Char('S'), Key::Char('s')];
    let done = bind(
        tree,
        Ghost(start),
        done,
        Ghost(menu_shift_s),
        Ghost(Key::Char('s')),
        "Sign",
        "Selection",
        vec![Key::Char('S'), Key::Char('s')],
        Ghost(path),
        CommandTreeNode::new_action(Message::Sign { action: SignAction::Sign, range: false }),
    );
    let ghost path = seq![Key::Char('S'), Key::Char('S')];
    let done = bind(
        tree,
        Ghost(start),
        done,
        Ghost(menu_shift_s),
        Ghost(Key::Char('S')),
        "Sign",
        "From selection to destination",
        vec![Key::Char('S'), Key::Char('S')],
        Ghost(path),
        CommandTreeNode::new_action_with_children(Message::SaveSelection),
    );
    let ghost menu_shift_s_shift_s = Seq::<u64>::empty()
        .push(Key::Char('S').spec_code())
        .push(Key::Char('S').spec_code());
    let ghost path = seq![Key::Char('S'), Key::Char('S'), Key::Enter];
    let done = bind(
        tree,
        Ghost(start),
        done,
        Ghost(menu_shift_s_shift_s),
        Ghost(Key::Enter),
        "Sign range",
        "Select destination",
        vec![Key::Char('S'), Key::Char('S'), Key::Enter],
        Ghost(path),
        CommandTreeNode::new_action(Message::Sign { action: SignAction::Sign, range: true }),
    );
    let ghost path = seq![Key::Char('S'), Key::Char('u')];
    let done = bind(
        tree,
        Ghost(start),
        done,
        Ghost(menu_shift_s),
        Ghost(Key::Char('u')),
        "Sign",
        "Unsign selection",
        vec![Key::Char('S'), Key::Char('u')],
        Ghost(path),
        CommandTreeNode::new_action(
            Message::Sign { action: SignAction::Unsign, range: false },
        ),
    );
    let ghost path = seq![Key::Char('S'), Key::Char('U')];
    let done = bind(
        tree,
        Ghost(start),
        done,
        Ghost(menu_shift_s),
        Ghost(Key::Char('U')),
        "Sign",
        "Unsign from selection to destination",
        vec![Key::Char('S'), Key::Char('U')],
        Ghost(path),
        CommandTreeNode::new_action_with_children(Message::SaveSelection),
    );
    let ghost menu_shift_s_shift_u = Seq::<u64>::empty()
        .push(Key::Char('S').spec_code())
        .push(Key::Char('U').spec_code());
    let ghost path = seq![Key::Char('S'), Key::Char('U'), Key::Enter];
    let done = bind(
        tree,
        Ghost(start),
        done,
        Ghost(menu_shift_s_shift_u),
        Ghost(Key::Enter),
        "Unsign range",
        "Select destination",
        vec![Key::Char('S'), Key::Char('U'), Key::Enter],
        Ghost(path),
        CommandTreeNode::new_action(Message::Sign { action: SignAction::Unsign, range: true }),
    );
    let ghost path = seq![Key::Char('y')];
    let done = bind(
        tree,
        Ghost(start),
        done,
        Ghost(root),
        Ghost(Key::Char('y')),
        "Commands",
        "Simplify parents",
        vec![Key::Char('y')],
        Ghost(path),
        CommandTreeNode::new_children(),
    );
    let ghost menu_y = Seq::<u64>::empty().push(Key::Char('y').spec_code());
    let ghost path = seq![Key::Char('y'), Key::Char('y')];
    let done = bind(
        tree,
        Ghost(start),
        done,
        Ghost(menu_y),
        Ghost(Key::Char('y')),
        "Simplify parents of",
        "Selection",
        vec![Key::Char('y'), Key::Char('y')],
        Ghost(path),
        CommandTreeNode::new_action(
            Message::SimplifyParents { mode: SimplifyParentsMode::Revisions },
        ),
    );
    let ghost path = seq![Key::Char('y'), Key::Char('Y')];
    let done = bind(
        tree,
        Ghost(start),
        done,
        Ghost(menu_y),
        Ghost(Key::Char('Y')),
        "Simplify parents of",
        "Selection with descendants",
        vec![Key::Char('y'), Key::Char('Y')],
        Ghost(path),
        CommandTreeNode::new_action(
            Message::SimplifyParents { mode: SimplifyParentsMode::Source },
        ),
    );
    let ghost path = seq![Key::Char('r')];
    let done = bind(
        tree,
        Ghost(start),
        done,
        Ghost(root),
        Ghost(Key::Char('r')),
        "Commands",
        "Rebase",
        vec![Key::Char('r')],
        Ghost(path),
        CommandTreeNode::new_children(),
    );
    let ghost menu_r = Seq::<u64>::empty().push(Key::Char('r').spec_code());
    let ghost path = seq![Key::Char('r'), Key::Char('b')];
    let done = bind(
        tree,
        Ghost(start),
        done,
        Ghost(menu_r),
        Ghost(Key::Char('b')),
        "Rebase",
        "Selected branch",
        vec![Key::Char('r'), Key::Char('b')],
        Ghost(path),
        CommandTreeNode::new_action_with_children(Message::SaveSelection),
    );
    let ghost menu_r_b = Seq::<u64>::empty()
        .push(Key::Char('r').spec_code())
        .push(Key::Char('b').spec_code());
    assert(done@ =~= rows_from_shift_s());
}

/// Rows 121 to 132 of the key table.
pub open spec fn rows_from_r_m() -> Seq<Row> {
    seq![
        Row {
            group: "Rebase"@,
            text: "Selected branch onto trunk"@,
            keys: seq![Key::Char('r'), Key::Char('m')],
            node: leaf_model(Some(Message::RebaseSelectedBranchOntoTrunk), false),
        },
        Row {
            group: "Rebase"@,
            text: "Selected branch onto trunk (sync)"@,
            keys: seq![Key::Char('r'), Key::Char('M')],
            node: leaf_model(Some(Message::RebaseSelectedBranchOntoTrunkSync), false),
        },
        Row {
            group: "Rebase"@,
            text: "Selected source"@,
            keys: seq![Key::Char('r'), Key::Char('s')],
            node: leaf_model(Some(Message::SaveSelection), true),
        },
        Row {
            group: "Rebase"@,
            text: "Selected revision"@,
            keys: seq![Key::Char('r'), Key::Char('r')],
            node: leaf_model(Some(Message::SaveSelection), true),
        },
        Row {
            group: "Rebase branch"@,
            text: "Insert after"@,
            keys: seq![Key::Char('r'), Key::Char('b'), Key::Char('a')],
            node: leaf_model(None, true),
        },
        Row {
            group: "Rebase branch"@,
            text: "Insert before"@,
            keys: seq![Key::Char('r'), Key::Char('b'), Key::Char('b')],
            node: leaf_model(None, true),
        },
        Row {
            group: "Rebase branch"@,
            text: "Onto"@,
            keys: seq![Key::Char('r'), Key::Char('b'), Key::Char('o')],
            node: leaf_model(None, true),
        },
        Row {
            group: "Rebase branch after"@,
            text: "Select destination"@,
            keys: seq![Key::Char('r'), Key::Char('b'), Key::Char('a'), Key::Enter],
            node: leaf_model(
                Some(
                    Message::Rebase {
                        source_type: RebaseSourceType::Branch,
                        destination_type: RebaseDestinationType::InsertAfter,
                        destination: RebaseDestination::Selection,
                    },
                ),
                false,
            ),
        },
        Row {
            group: "Rebase branch after"@,
            text: "Trunk"@,
            keys: seq![Key::Char('r'), Key::Char('b'), Key::Char('a'), Key::Char('m')],
            node: leaf_model(
                Some(
                    Message::Rebase {
                        source_type: RebaseSourceType::Branch,
                        destination_type: RebaseDestinationType::InsertAfter,
                        destination: RebaseDestination::Trunk,
                    },
                ),
                false,
            ),
        },
        Row {
            group: "Rebase branch after"@,
            text: "@"@,
            keys: seq![Key::Char('r'), Key::Char('b'), Key::Char('a'), Key::Char('c')],
            node: leaf_model(
                Some(
                    Message::Rebase {
                        source_type: RebaseSourceType::Branch,
                        destination_type: RebaseDestinationType::InsertAfter,
                        destination: RebaseDestination::Current,
                    },
                ),
                false,
            ),
        },
        Row {
            group: "Rebase branch before"@,
            text: "Select destination"@,
            keys: seq![Key::Char('r'), Key::Char('b'), Key::Char('b'), Key::Enter],
            node: leaf_model(
                Some(
                    Message::Rebase {
                        source_type: RebaseSourceType::Branch,
                        destination_type: RebaseDestinationType::InsertBefore,
                        destination: RebaseDestination::Selection,
                    },
                ),
                false,
            ),
        },
        Row {
            group: "Rebase branch before"@,
            text: "Trunk"@,
            keys: seq![Key::Char('r'), Key::Char('b'), Key::Char('b'), Key::Char('m')],
            node: leaf_model(
                Some(
                    Message::Rebase {
                        source_type: RebaseSourceType::Branch,
                        destination_type: RebaseDestinationType::InsertBefore,
                        destination: RebaseDestination::Trunk,
                    },
                ),
                false,
            ),
        },
    ]
}

fn bind_rows_from_r_m(tree: &mut CommandTree)
    requires
        is_menu(old(tree)@, Seq::<u64>::empty()),
        is_menu(old(tree)@, Seq::<u64>::empty().push(Key::Char('r').spec_code())),
        is_menu(old(tree)@, Seq::<u64>::empty()
            .push(Key::Char('r').spec_code())
            .push(Key::Char('b').spec_code())),
    ensures
        registered_rows(old(tree)@, rows_from_r_m(), final(tree)@),
        is_menu(final(tree)@, Seq::<u64>::empty()),
        is_menu(final(tree)@, Seq::<u64>::empty()
            .push(Key::Char('r').spec_code())
            .push(Key::Char('b').spec_code())
            .push(Key::Char('b').spec_code())),
        is_menu(final(tree)@, Seq::<u64>::empty()
            .push(Key::Char('r').spec_code())
            .push(Key::Char('b').spec_code())
            .push(Key::Char('o').spec_code())),
        is_menu(final(tree)@, Seq::<u64>::empty()
            .push(Key::Char('r').spec_code())
            .push(Key::Char('s').spec_code())),
        is_menu(final(tree)@, Seq::<u64>::empty()
            .push(Key::Char('r').spec_code())
            .push(Key::Char('r').spec_code())),
{
    let ghost start = tree@;
    let ghost root = Seq::<u64>::empty();
    let ghost menu_r = Seq::<u64>::empty().push(Key::Char('r').spec_code());
    let ghost menu_r_b = Seq::<u64>::empty()
        .push(Key::Char('r').spec_code())
        .push(Key::Char('b').spec_code());
    let done: Ghost<Seq<Row>> = Ghost(Seq::empty());
    let ghost path = seq![Key::Char('r'), Key::Char('m')];
    let done = bind(
        tree,
        Ghost(start),
        done,
        Ghost(menu_r),
        Ghost(Key::Char('m')),
        "Rebase",
        "Selected branch onto trunk",
        vec![Key::Char('r'), Key::Char('m')],
        Ghost(path),
        CommandTreeNode::new_action(Message::RebaseSelectedBranchOntoTrunk),
    );
    let ghost path = seq![Key::Char('r'), Key::Char('M')];
    let done = bind(
        tree,
        Ghost(start),
        done,
        Ghost(menu_r),
        Ghost(Key::Char('M')),
        "Rebase",
        "Selected branch onto trunk (sync)",
        vec![Key::Char('r'), Key::Char('M')],
        Ghost(path),
        CommandTreeNode::new_action(Message::RebaseSelectedBranchOntoTrunkSync),
    );
    let ghost path = seq![Key::Char('r'), Key::Char('s')];
    let done = bind(
        tree,
        Ghost(start),
        done,
        Ghost(menu_r),
        Ghost(Key::Char('s')),
        "Rebase",
        "Selected source",
        vec![Key::Char('r'), Key::Char('s')],
        Ghost(path),
        CommandTreeNode::new_action_with_children(Message::SaveSelection),
    );
    let ghost menu_r_s = Seq::<u64>::empty()
        .push(Key::Char('r').spec_code())
        .push(Key::Char('s').spec_code());
    let ghost path = seq![Key::Char('r'), Key::Char('r')];
    let done = bind(
        tree,
        Ghost(start),
        done,
        Ghost(menu_r),
        Ghost(Key::Char('r')),
        "Rebase",
        "Selected revision",
        vec![Key::Char('r'), Key::Char('r')],
        Ghost(path),
        CommandTreeNode::new_action_with_children(Message::SaveSelection),
    );
    let ghost menu_r_r = Seq::<u64>::empty()
        .push(Key::Char('r').spec_code())
        .push(Key::Char('r').spec_code());
    let ghost path = seq![Key::Char('r'), Key::Char('b'), Key::Char('a')];
    let done = bind(
        tree,
        Ghost(start),
        done,
        Ghost(menu_r_b),
        Ghost(Key::Char('a')),
        "Rebase branch",
        "Insert after",
        vec![Key::Char('r'), Key::Char('b'), Key::Char('a')],
        Ghost(path),
        CommandTreeNode::new_children(),
    );
    let ghost menu_r_b_a = Seq::<u64>::empty()
        .push(Key::Char('r').spec_code())
        .push(Key::Char('b').spec_code())
        .push(Key::Char('a').spec_code());
    let ghost path = seq![Key::Char('r'), Key::Char('b'), Key::Char('b')];
    let done = bind(
        tree,
        Ghost(start),
        done,
        Ghost(menu_r_b),
        Ghost(Key::Char('b')),
        "Rebase branch",
        "Insert before",
        vec![Key::Char('r'), Key::Char('b'), Key::Char('b')],
        Ghost(path),
        CommandTreeNode::new_children(),
    );
    let ghost menu_r_b_b = Seq::<u64>::empty()
        .push(Key::Char('r').spec_code())
        .push(Key::Char('b').spec_code())
        .push(Key::Char('b').spec_code());
    let ghost path = seq![Key::Char('r'), Key::Char('b'), Key::Char('o')];
    let done = bind(
        tree,
        Ghost(start),
        done,
        Ghost(menu_r_b),
        Ghost(Key::Char('o')),
        "Rebase branch",
        "Onto",
        vec![Key::Char('r'), Key::Char('b'), Key::Char('o')],
        Ghost(path),
        CommandTreeNode::new_children(),
    );
    let ghost menu_r_b_o = Seq::<u64>::empty()
        .push(Key::Char('r').spec_code())
        .push(Key::Char('b').spec_code())
        .push(Key::Char('o').spec_code());
    let ghost path = seq![Key::Char('r'), Key::Char('b'), Key::Char('a'), Key::Enter];
    let done = bind(
        tree,
        Ghost(start),
        done,
        Ghost(menu_r_b_a),
        Ghost(Key::Enter),
        "Rebase branch after",
        "Select destination",
        vec![Key::Char('r'), Key::Char('b'), Key::Char('a'), Key::Enter],
        Ghost(path),
        CommandTreeNode::new_action(
            Message::Rebase {
                source_type: RebaseSourceType::Branch,
                destination_type: RebaseDestinationType::InsertAfter,
                destination: RebaseDestination::Selection,
            },
        ),
    );
    let ghost path = seq![Key::Char('r'), Key::Char('b'), Key::Char('a'), Key::Char('m')];
    let done = bind(
        tree,
        Ghost(start),
        done,
        Ghost(menu_r_b_a),
        Ghost(Key::Char('m')),
        "Rebase branch after",
        "Trunk",
        vec![Key::Char('r'), Key::Char('b'), Key::Char('a'), Key::Char('m')],
        Ghost(path),
        CommandTreeNode::new_action(
            Message::Rebase {
                source_type: RebaseSourceType::Branch,
                destination_type: RebaseDestinationType::InsertAfter,
                destination: RebaseDestination::Trunk,
            },
        ),
    );
    let ghost path = seq![Key::Char('r'), Key::Char('b'), Key::Char('a'), Key::Char('c')];
    let done = bind(
        tree,
        Ghost(start),
        done,
        Ghost(menu_r_b_a),
        Ghost(Key::Char('c')),
        "Rebase branch after",
        "@",
        vec![Key::Char('r'), Key::Char('b'), Key::Char('a'), Key::Char('c')],
        Ghost(path),
        CommandTreeNode::new_action(
            Message::Rebase {
                source_type: RebaseSourceType::Branch,
                destination_type: RebaseDestinationType::InsertAfter,
                destination: RebaseDestination::Current,
            },
        ),
    );
    let ghost path = seq![Key::Char('r'), Key::Char('b'), Key::Char('b'), Key::Enter];
    let done = bind(
        tree,
        Ghost(start),
        done,
        Ghost(menu_r_b_b),
        Ghost(Key::Enter),
        "Rebase branch before",
        "Select destination",
        vec![Key::Char('r'), Key::Char('b'), Key::Char('b'), Key::Enter],
        Ghost(path),
        CommandTreeNode::new_action(
            Message::Rebase {
                source_type: RebaseSourceType::Branch,
                destination_type: RebaseDestinationType::InsertBefore,
                destination: RebaseDestination::Selection,
            },
        ),
    );
    let ghost path = seq![Key::Char('r'), Key::Char('b'), Key::Char('b'), Key::Char('m')];
    let done = bind(
        tree,
        Ghost(start),
        done,
        Ghost(menu_r_b_b),
        Ghost(Key::Char('m')),
        "Rebase branch before",
        "Trunk",
        vec![Key::Char('r'), Key::Char('b'), Key::Char('b'), Key::Char('m')],
        Ghost(path),
        CommandTreeNode::new_action(
            Message::Rebase {
                source_type: RebaseSourceType::Branch,
                destination_type: RebaseDestinationType::InsertBefore,
                destination: RebaseDestination::Trunk,
            },
        ),
    );
    assert(done@ =~= rows_from_r_m());
}

/// Rows 133 to 144 of the key table.
pub open spec fn rows_from_r_b_b_c() -> Seq<Row> {
    seq![
        Row {
            group: "Rebase branch before"@,
            text: "@"@,
            keys: seq![Key::Char('r'), Key::Char('b'), Key::Char('b'), Key::Char('c')],
            node: leaf_model(
                Some(
                    Message::Rebase {
                        source_type: RebaseSourceType::Branch,
                        destination_type: RebaseDestinationType::InsertBefore,
                        destination: RebaseDestination::Current,
                    },
                ),
                false,
            ),
        },
        Row {
            group: "Rebase branch onto"@,
            text: "Select destination"@,
            keys: seq![Key::Char('r'), Key::Char('b'), Key::Char('o'), Key::Enter],
            node: leaf_model(
                Some(
                    Message::Rebase {
                        source_type: RebaseSourceType::Branch,
                        destination_type: RebaseDestinationType::Onto,
                        destination: RebaseDestination::Selection,
                    },
                ),
                false,
            ),
        },
        Row {
            group: "Rebase branch onto"@,
            text: "Trunk"@,
            keys: seq![Key::Char('r'), Key::Char('b'), Key::Char('o'), Key::Char('m')],
            node: leaf_model(
                Some(
                    Message::Rebase {
                        source_type: RebaseSourceType::Branch,
                        destination_type: RebaseDestinationType::Onto,
                        destination: RebaseDestination::Trunk,
                    },
                ),
                false,
            ),
        },
        Row {
            group: "Rebase branch onto"@,
            text: "@"@,
            keys: seq![Key::Char('r'), Key::Char('b'), Key::Char('o'), Key::Char('c')],
            node: leaf_model(
                Some(
                    Message::Rebase {
                        source_type: RebaseSourceType::Branch,
                        destination_type: RebaseDestinationType::Onto,
                        destination: RebaseDestination::Current,
                    },
                ),
                false,
            ),
        },
        Row {
            group: "Rebase source"@,
            text: "Insert after"@,
            keys: seq![Key::Char('r'), Key::Char('s'), Key::Char('a')],
            node: leaf_model(None, true),
        },
        Row {
            group: "Rebase source"@,
            text: "Insert before"@,
            keys: seq![Key::Char('r'), Key::Char('s'), Key::Char('b')],
            node: leaf_model(None, true),
        },
        Row {
            group: "Rebase source"@,
            text: "Onto"@,
            keys: seq![Key::Char('r'), Key::Char('s'), Key::Char('o')],
            node: leaf_model(None, true),
        },
        Row {
            group: "Rebase source after"@,
            text: "Select destination"@,
            keys: seq![Key::Char('r'), Key::Char('s'), Key::Char('a'), Key::Enter],
            node: leaf_model(
                Some(
                    Message::Rebase {
                        source_type: RebaseSourceType::Source,
                        destination_type: RebaseDestinationType::InsertAfter,
                        destination: RebaseDestination::Selection,
                    },
                ),
                false,
            ),
        },
        Row {
            group: "Rebase source after"@,
            text: "Trunk"@,
            keys: seq![Key::Char('r'), Key::Char('s'), Key::Char('a'), Key::Char('m')],
            node: leaf_model(
                Some(
                    Message::Rebase {
                        source_type: RebaseSourceType::Source,
                        destination_type: RebaseDestinationType::InsertAfter,
                        destination: RebaseDestination::Trunk,
                    },
                ),
                false,
            ),
        },
        Row {
            group: "Rebase source after"@,
            text: "@"@,
            keys: seq![Key::Char('r'), Key::Char('s'), Key::Char('a'), Key::Char('c')],
            node: leaf_model(
                Some(
                    Message::Rebase {
                        source_type: RebaseSourceType::Source,
                        destination_type: RebaseDestinationType::InsertAfter,
                        destination: RebaseDestination::Current,
                    },
                ),
                false,
            ),
        },
        Row {
            group: "Rebase source before"@,
            text: "Select destination"@,
            keys: seq![Key::Char('r'), Key::Char('s'), Key::Char('b'), Key::Enter],
            node: leaf_model(
                Some(
                    Message::Rebase {
                        source_type: RebaseSourceType::Source,
                        destination_type: RebaseDestinationType::InsertBefore,
                        destination: RebaseDestination::Selection,
                    },
                ),
                false,
            ),
        },
        Row {
            group: "Rebase source before"@,
            text: "Trunk"@,
            keys: seq![Key::Char('r'), Key::Char('s'), Key::Char('b'), Key::Char('m')],
            node: leaf_model(
                Some(
                    Message::Rebase {
                        source_type: RebaseSourceType::Source,
                        destination_type: RebaseDestinationType::InsertBefore,
                        destination: RebaseDestination::Trunk,
                    },
                ),
                false,
            ),
        },
    ]
}

fn bind_rows_from_r_b_b_c(tree: &mut CommandTree)
    requires
        is_menu(old(tree)@, Seq::<u64>::empty()),
        is_menu(old(tree)@, Seq::<u64>::empty()
            .push(Key::Char('r').spec_code())
            .push(Key::Char('b').spec_code())
            .push(Key::Char('b').spec_code())),
        is_menu(old(tree)@, Seq::<u64>::empty()
            .push(Key::Char('r').spec_code())
            .push(Key::Char('b').spec_code())
            .push(Key::Char('o').spec_code())),
        is_menu(old(tree)@, Seq::<u64>::empty()
            .push(Key::Char('r').spec_code())
            .push(Key::Char('s').spec_code())),
        is_menu(old(tree)@, Seq::<u64>::empty()
            .push(Key::Char('r').spec_code())
            .push(Key::Char('r').spec_code())),
    ensures
        registered_rows(old(tree)@, rows_from_r_b_b_c(), final(tree)@),
        is_menu(final(tree)@, Seq::<u64>::empty()),
        is_menu(final(tree)@, Seq::<u64>::empty()
            .push(Key::Char('r').spec_code())
            .push(Key::Char('s').spec_code())
            .push(Key::Char('b').spec_code())),
        is_menu(final(tree)@, Seq::<u64>::empty()
            .push(Key::Char('r').spec_code())
            .push(Key::Char('s').spec_code())
            .push(Key::Char('o').spec_code())),
        is_menu(final(tree)@, Seq::<u64>::empty()
            .push(Key::Char('r').spec_code())
            .push(Key::Char('r').spec_code())),
{
    let ghost start = tree@;
    let ghost root = Seq::<u64>::empty();
    let ghost menu_r_b_b = Seq::<u64>::empty()
        .push(Key::Char('r').spec_code())
        .push(Key::Char('b').spec_code())
        .push(Key::Char('b').spec_code());
    let ghost menu_r_b_o = Seq::<u64>::empty()
        .push(Key::Char('r').spec_code())
        .push(Key::Char('b').spec_code())
        .push(Key::Char('o').spec_code());
    let ghost menu_r_s = Seq::<u64>::empty()
        .push(Key::Char('r').spec_code())
        .push(Key::Char('s').spec_code());
    let ghost menu_r_r = Seq::<u64>::empty()
        .push(Key::Char('r').spec_code())
        .push(Key::Char('r').spec_code());
    let done: Ghost<Seq<Row>> = Ghost(Seq::empty());
    let ghost path = seq![Key::Char('r'), Key::Char('b'), Key::Char('b'), Key::Char('c')];
    let done = bind(
        tree,
        Ghost(start),
        done,
        Ghost(menu_r_b_b),
        Ghost(Key::Char('c')),
        "Rebase branch before",
        "@",
        vec![Key::Char('r'), Key::Char('b'), Key::Char('b'), Key::Char('c')],
        Ghost(path),
        CommandTreeNode::new_action(
            Message::Rebase {
                source_type: RebaseSourceType::Branch,
                destination_type: RebaseDestinationType::InsertBefore,
                destination: RebaseDestination::Current,
            },
        ),
    );
    let ghost path = seq![Key::Char('r'), Key::Char('b'), Key::Char('o'), Key::Enter];
    let done = bind(
        tree,
        Ghost(start),
        done,
        Ghost(menu_r_b_o),
        Ghost(Key::Enter),
        "Rebase branch onto",
        "Select destination",
        vec![Key::Char('r'), Key::Char('b'), Key::Char('o'), Key::Enter],
        Ghost(path),
        CommandTreeNode::new_action(
            Message::Rebase {
                source_type: RebaseSourceType::Branch,
                destination_type: RebaseDestinationType::Onto,
                destination: RebaseDestination::Selection,
            },
        ),
    );
    let ghost path = seq![Key::Char('r'), Key::Char('b'), Key::Char('o'), Key::Char('m')];
    let done = bind(
        tree,
        Ghost(start),
        done,
        Ghost(menu_r_b_o),
        Ghost(Key::Char('m')),
        "Rebase branch onto",
        "Trunk",
        vec![Key::Char('r'), Key::Char('b'), Key::Char('o'), Key::Char('m')],
        Ghost(path),
        CommandTreeNode::new_action(
            Message::Rebase {
                source_type: RebaseSourceType::Branch,
                destination_type: RebaseDestinationType::Onto,
                destination: RebaseDestination::Trunk,
            },
        ),
    );
    let ghost path = seq![Key::Char('r'), Key::Char('b'), Key::Char('o'), Key::Char('c')];
    let done = bind(
        tree,
        Ghost(start),
        done,
        Ghost(menu_r_b_o),
        Ghost(Key::Char('c')),
        "Rebase branch onto",
        "@",
        vec![Key::Char('r'), Key::Char('b'), Key::Char('o'), Key::Char('c')],
        Ghost(path),
        CommandTreeNode::new_action(
            Message::Rebase {
                source_type: RebaseSourceType::Branch,
                destination_type: RebaseDestinationType::Onto,
                destination: RebaseDestination::Current,
            },
        ),
    );
    let ghost path = seq![Key::Char('r'), Key::Char('s'), Key::Char('a')];
    let done = bind(
        tree,
        Ghost(start),
        done,
        Ghost(menu_r_s),
        Ghost(Key::Char('a')),
        "Rebase source",
        "Insert after",
        vec![Key::Char('r'), Key::Char('s'), Key::Char('a')],
        Ghost(path),
        CommandTreeNode::new_children(),
    );
    let ghost menu_r_s_a = Seq::<u64>::empty()
        .push(Key::Char('r').spec_code())
        .push(Key::Char('s').spec_code())
        .push(Key::Char('a').spec_code());
    let ghost path = seq![Key::Char('r'), Key::Char('s'), Key::Char('b')];
    let done = bind(
        tree,
        Ghost(start),
        done,
        Ghost(menu_r_s),
        Ghost(Key::Char('b')),
        "Rebase source",
        "Insert before",
        vec![Key::Char('r'), Key::Char('s'), Key::Char('b')],
        Ghost(path),
        CommandTreeNode::new_children(),
    );
    let ghost menu_r_s_b = Seq::<u64>::empty()
        .push(Key::Char('r').spec_code())
        .push(Key::Char('s').spec_code())
        .push(Key::Char('b').spec_code());
    let ghost path = seq![Key::Char('r'), Key::Char('s'), Key::Char('o')];
    let done = bind(
        tree,
        Ghost(start),
        done,
        Ghost(menu_r_s),
        Ghost(Key::Char('o')),
        "Rebase source",
        "Onto",
        vec![Key::Char('r'), Key::Char('s'), Key::Char('o')],
        Ghost(path),
        CommandTreeNode::new_children(),
    );
    let ghost menu_r_s_o = Seq::<u64>::empty()
        .push(Key::Char('r').spec_code())
        .push(Key::Char('s').spec_code())
        .push(Key::Char('o').spec_code());
    let ghost path = seq![Key::Char('r'), Key::Char('s'), Key::Char('a'), Key::Enter];
    let done = bind(
        tree,
        Ghost(start),
        done,
        Ghost(menu_r_s_a),
        Ghost(Key::Enter),
        "Rebase source after",
        "Select destination",
        vec![Key::Char('r'), Key::Char('s'), Key::Char('a'), Key::Enter],
        Ghost(path),
        CommandTreeNode::new_action(
            Message::Rebase {
                source_type: RebaseSourceType::Source,
                destination_type: RebaseDestinationType::InsertAfter,
                destination: RebaseDestination::Selection,
            },
        ),
    );
    let ghost path = seq![Key::Char('r'), Key::Char('s'), Key::Char('a'), Key::Char('m')];
    let done = bind(
        tree,
        Ghost(start),
        done,
        Ghost(menu_r_s_a),
        Ghost(Key::Char('m')),
        "Rebase source after",
        "Trunk",
        vec![Key::Char('r'), Key::Char('s'), Key::Char('a'), Key::Char('m')],
        Ghost(path),
        CommandTreeNode::new_action(
            Message::Rebase {
                source_type: RebaseSourceType::Source,
                destination_type: RebaseDestinationType::InsertAfter,
                destination: RebaseDestination::Trunk,
            },
        ),
    );
    let ghost path = seq![Key::Char('r'), Key::Char('s'), Key::Char('a'), Key::Char('c')];
    let done = bind(
        tree,
        Ghost(start),
        done,
        Ghost(menu_r_s_a),
        Ghost(Key::Char('c')),
        "Rebase source after",
        "@",
        vec![Key::Char('r'), Key::Char('s'), Key::Char('a'), Key::Char('c')],
        Ghost(path),
        CommandTreeNode::new_action(
            Message::Rebase {
                source_type: RebaseSourceType::Source,
                destination_type: RebaseDestinationType::InsertAfter,
                destination: RebaseDestination::Current,
            },
        ),
    );
    let ghost path = seq![Key::Char('r'), Key::Char('s'), Key::Char('b'), Key::Enter];
    let done = bind(
        tree,
        Ghost(start),
        done,
        Ghost(menu_r_s_b),
        Ghost(Key::Enter),
        "Rebase source before",
        "Select destination",
        vec![Key::Char('r'), Key::Char('s'), Key::Char('b'), Key::Enter],
        Ghost(path),
        CommandTreeNode::new_action(
            Message::Rebase {
                source_type: RebaseSourceType::Source,
                destination_type: RebaseDestinationType::InsertBefore,
                destination: RebaseDestination::Selection,
            },
        ),
    );
    let ghost path = seq![Key::Char('r'), Key::Char('s'), Key::Char('b'), Key::Char('m')];
    let done = bind(
        tree,
        Ghost(start),
        done,
        Ghost(menu_r_s_b),
        Ghost(Key::Char('m')),
        "Rebase source before",
        "Trunk",
        vec![Key::Char('r'), Key::Char('s'), Key::Char('b'), Key::Char('m')],
        Ghost(path),
        CommandTreeNode::new_action(
            Message::Rebase {
                source_type: RebaseSourceType::Source,
                destination_type: RebaseDestinationType::InsertBefore,
                destination: RebaseDestination::Trunk,
            },
        ),
    );
    assert(done@ =~= rows_from_r_b_b_c());
}

/// Rows 145 to 156 of the key table.
pub open spec fn rows_from_r_s_b_c() -> Seq<Row> {
    seq![
        Row {
            group: "Rebase source before"@,
            text: "@"@,
            keys: seq![Key::Char('r'), Key::Char('s'), Key::Char('b'), Key::Char('c')],
            node: leaf_model(
                Some(
                    Message::Rebase {
                        source_type: RebaseSourceType::Source,
                        destination_type: RebaseDestinationType::InsertBefore,
                        destination: RebaseDestination::Current,
                    },
                ),
                false,
            ),
        },
        Row {
            group: "Rebase source onto"@,
            text: "Select destination"@,
            keys: seq![Key::Char('r'), Key::Char('s'), Key::Char('o'), Key::Enter],
            node: leaf_model(
                Some(
                    Message::Rebase {
                        source_type: RebaseSourceType::Source,
                        destination_type: RebaseDestinationType::Onto,
                        destination: RebaseDestination::Selection,
                    },
                ),
                false,
            ),
        },
        Row {
            group: "Rebase source onto"@,
            text: "Trunk"@,
            keys: seq![Key::Char('r'), Key::Char('s'), Key::Char('o'), Key::Char('m')],
            node: leaf_model(
                Some(
                    Message::Rebase {
                        source_type: RebaseSourceType::Source,
                        destination_type: RebaseDestinationType::Onto,
                        destination: RebaseDestination::Trunk,
                    },
                ),
                false,
            ),
        },
        Row {
            group: "Rebase source onto"@,
            text: "@"@,
            keys: seq![Key::Char('r'), Key::Char('s'), Key::Char('o'), Key::Char('c')],
            node: leaf_model(
                Some(
                    Message::Rebase {
                        source_type: RebaseSourceType::Source,
                        destination_type: RebaseDestinationType::Onto,
                        destination: RebaseDestination::Current,
                    },
                ),
                false,
            ),
        },
        Row {
            group: "Rebase revision"@,
            text: "Insert after"@,
            keys: seq![Key::Char('r'), Key::Char('r'), Key::Char('a')],
            node: leaf_model(None, true),
        },
        Row {
            group: "Rebase revision"@,
            text: "Insert before"@,
            keys: seq![Key::Char('r'), Key::Char('r'), Key::Char('b')],
            node: leaf_model(None, true),
        },
        Row {
            group: "Rebase revision"@,
            text: "Onto"@,
            keys: seq![Key::Char('r'), Key::Char('r'), Key::Char('o')],
            node: leaf_model(None, true),
        },
        Row {
            group: "Rebase revision after"@,
            text: "Select destination"@,
            keys: seq![Key::Char('r'), Key::Char('r'), Key::Char('a'), Key::Enter],
            node: leaf_model(
                Some(
                    Message::Rebase {
                        source_type: RebaseSourceType::Revisions,
                        destination_type: RebaseDestinationType::InsertAfter,
                        destination: RebaseDestination::Selection,
                    },
                ),
                false,
            ),
        },
        Row {
            group: "Rebase revision after"@,
            text: "Trunk"@,
            keys: seq![Key::Char('r'), Key::Char('r'), Key::Char('a'), Key::Char('m')],
            node: leaf_model(
                Some(
                    Message::Rebase {
                        source_type: RebaseSourceType::Revisions,
                        destination_type: RebaseDestinationType::InsertAfter,
                        destination: RebaseDestination::Trunk,
                    },
                ),
                false,
            ),
        },
        Row {
            group: "Rebase revision after"@,
            text: "@"@,
            keys: seq![Key::Char('r'), Key::Char('r'), Key::Char('a'), Key::Char('c')],
            node: leaf_model(
                Some(
                    Message::Rebase {
                        source_type: RebaseSourceType::Revisions,
                        destination_type: RebaseDestinationType::InsertAfter,
                        destination: RebaseDestination::Current,
                    },
                ),
                false,
            ),
        },
        Row {
            group: "Rebase revision before"@,
            text: "Select destination"@,
            keys: seq![Key::Char('r'), Key::Char('r'), Key::Char('b'), Key::Enter],
            node: leaf_model(
                Some(
                    Message::Rebase {
                        source_type: RebaseSourceType::Revisions,
                        destination_type: RebaseDestinationType::InsertBefore,
                        destination: RebaseDestination::Selection,
                    },
                ),
                false,
            ),
        },
        Row {
            group: "Rebase revision before"@,
            text: "Trunk"@,
            keys: seq![Key::Char('r'), Key::Char('r'), Key::Char('b'), Key::Char('m')],
            node: leaf_model(
                Some(
                    Message::Rebase {
                        source_type: RebaseSourceType::Revisions,
                        destination_type: RebaseDestinationType::InsertBefore,
                        destination: RebaseDestination::Trunk,
                    },
                ),
                false,
            ),
        },
    ]
}

fn bind_rows_from_r_s_b_c(tree: &mut CommandTree)
    requires
        is_menu(old(tree)@, Seq::<u64>::empty()),
        is_menu(old(tree)@, Seq::<u64>::empty()
            .push(Key::Char('r').spec_code())
            .push(Key::Char('s').spec_code())
            .push(Key::Char('b').spec_code())),
        is_menu(old(tree)@, Seq::<u64>::empty()
            .push(Key::Char('r').spec_code())
            .push(Key::Char('s').spec_code())
            .push(Key::Char('o').spec_code())),
        is_menu(old(tree)@, Seq::<u64>::empty()
            .push(Key::Char('r').spec_code())
            .push(Key::Char('r').spec_code())),
    ensures
        registered_rows(old(tree)@, rows_from_r_s_b_c(), final(tree)@),
        is_menu(final(tree)@, Seq::<u64>::empty()),
        is_menu(final(tree)@, Seq::<u64>::empty()
            .push(Key::Char('r').spec_code())
            .push(Key::Char('r').spec_code())
            .push(Key::Char('b').spec_code())),
        is_menu(final(tree)@, Seq::<u64>::empty()
            .push(Key::Char('r').spec_code())
            .push(Key::Char('r').spec_code())
            .push(Key::Char('o').spec_code())),
{
    let ghost start = tree@;
    let ghost root = Seq::<u64>::empty();
    let ghost menu_r_s_b = Seq::<u64>::empty()
        .push(Key::Char('r').spec_code())
        .push(Key::Char('s').spec_code())
        .push(Key::Char('b').spec_code());
    let ghost menu_r_s_o = Seq::<u64>::empty()
        .push(Key::Char('r').spec_code())
        .push(Key::Char('s').spec_code())
        .push(Key::Char('o').spec_code());
    let ghost menu_r_r = Seq::<u64>::empty()
        .push(Key::Char('r').spec_code())
        .push(Key::Char('r').spec_code());
    let done: Ghost<Seq<Row>> = Ghost(Seq::empty());
    let ghost path = seq![Key::Char('r'), Key::Char('s'), Key::Char('b'), Key::Char('c')];
    let done = bind(
        tree,
        Ghost(start),
        done,
        Ghost(menu_r_s_b),
        Ghost(Key::Char('c')),
        "Rebase source before",
        "@",
        vec![Key::Char('r'), Key::Char('s'), Key::Char('b'), Key::Char('c')],
        Ghost(path),
        CommandTreeNode::new_action(
            Message::Rebase {
                source_type: RebaseSourceType::Source,
                destination_type: RebaseDestinationType::InsertBefore,
                destination: RebaseDestination::Current,
            },
        ),
    );
    let ghost path = seq![Key::Char('r'), Key::Char('s'), Key::Char('o'), Key::Enter];
    let done = bind(
        tree,
        Ghost(start),
        done,
        Ghost(menu_r_s_o),
        Ghost(Key::Enter),
        "Rebase source onto",
        "Select destination",
        vec![Key::Char('r'), Key::Char('s'), Key::Char('o'), Key::Enter],
        Ghost(path),
        CommandTreeNode::new_action(
            Message::Rebase {
                source_type: RebaseSourceType::Source,
                destination_type: RebaseDestinationType::Onto,
                destination: RebaseDestination::Selection,
            },
        ),
    );
    let ghost path = seq![Key::Char('r'), Key::Char('s'), Key::Char('o'), Key::Char('m')];
    let done = bind(
        tree,
        Ghost(start),
        done,
        Ghost(menu_r_s_o),
        Ghost(Key::Char('m')),
        "Rebase source onto",
        "Trunk",
        vec![Key::Char('r'), Key::Char('s'), Key::Char('o'), Key::Char('m')],
        Ghost(path),
        CommandTreeNode::new_action(
            Message::Rebase {
                source_type: RebaseSourceType::Source,
                destination_type: RebaseDestinationType::Onto,
                destination: RebaseDestination::Trunk,
            },
        ),
    );
    let ghost path = seq![Key::Char('r'), Key::Char('s'), Key::Char('o'), Key::Char('c')];
    let done = bind(
        tree,
        Ghost(start),
        done,
        Ghost(menu_r_s_o),
        Ghost(Key::Char('c')),
        "Rebase source onto",
        "@",
        vec![Key::Char('r'), Key::Char('s'), Key::Char('o'), Key::Char('c')],
        Ghost(path),
        CommandTreeNode::new_action(
            Message::Rebase {
                source_type: RebaseSourceType::Source,
                destination_type: RebaseDestinationType::Onto,
                destination: RebaseDestination::Current,
            },
        ),
    );
    let ghost path = seq![Key::Char('r'), Key::Char('r'), Key::Char('a')];
    let done = bind(
        tree,
        Ghost(start),
        done,
        Ghost(menu_r_r),
        Ghost(Key::Char('a')),
        "Rebase revision",
        "Insert after",
        vec![Key::Char('r'), Key::Char('r'), Key::Char('a')],
        Ghost(path),
        CommandTreeNode::new_children(),
    );
    let ghost menu_r_r_a = Seq::<u64>::empty()
        .push(Key::Char('r').spec_code())
        .push(Key::Char('r').spec_code())
        .push(Key::Char('a').spec_code());
    let ghost path = seq![Key::Char('r'), Key::Char('r'), Key::Char('b')];
    let done = bind(
        tree,
        Ghost(start),
        done,
        Ghost(menu_r_r),
        Ghost(Key::Char('b')),
        "Rebase revision",
        "Insert before",
        vec![Key::Char('r'), Key::Char('r'), Key::Char('b')],
        Ghost(path),
        CommandTreeNode::new_children(),
    );
    let ghost menu_r_r_b = Seq::<u64>::empty()
        .push(Key::Char('r').spec_code())
        .push(Key::Char('r').spec_code())
        .push(Key::Char('b').spec_code());
    let ghost path = seq![Key::Char('r'), Key::Char('r'), Key::Char('o')];
    let done = bind(
        tree,
        Ghost(start),
        done,
        Ghost(menu_r_r),
        Ghost(Key::Char('o')),
        "Rebase revision",
        "Onto",
        vec![Key::Char('r'), Key::Char('r'), Key::Char('o')],
        Ghost(path),
        CommandTreeNode::new_children(),
    );
    let ghost menu_r_r_o = Seq::<u64>::empty()
        .push(Key::Char('r').spec_code())
        .push(Key::Char('r').spec_code())
        .push(Key::Char('o').spec_code());
    let ghost path = seq![Key::Char('r'), Key::Char('r'), Key::Char('a'), Key::Enter];
    let done = bind(
        tree,
        Ghost(start),
        done,
        Ghost(menu_r_r_a),
        Ghost(Key::Enter),
        "Rebase revision after",
        "Select destination",
        vec![Key::Char('r'), Key::Char('r'), Key::Char('a'), Key::Enter],
        Ghost(path),
        CommandTreeNode::new_action(
            Message::Rebase {
                source_type: RebaseSourceType::Revisions,
                destination_type: RebaseDestinationType::InsertAfter,
                destination: RebaseDestination::Selection,
            },
        ),
    );
    let ghost path = seq![Key::Char('r'), Key::Char('r'), Key::Char('a'), Key::Char('m')];
    let done = bind(
        tree,
        Ghost(start),
        done,
        Ghost(menu_r_r_a),
        Ghost(Key::Char('m')),
        "Rebase revision after",
        "Trunk",
        vec![Key::Char('r'), Key::Char('r'), Key::Char('a'), Key::Char('m')],
        Ghost(path),
        CommandTreeNode::new_action(
            Message::Rebase {
                source_type: RebaseSourceType::Revisions,
                destination_type: RebaseDestinationType::InsertAfter,
                destination: RebaseDestination::Trunk,
            },
        ),
    );
    let ghost path = seq![Key::Char('r'), Key::Char('r'), Key::Char('a'), Key::Char('c')];
    let done = bind(
        tree,
        Ghost(start),
        done,
        Ghost(menu_r_r_a),
        Ghost(Key::Char('c')),
        "Rebase revision after",
        "@",
        vec![Key::Char('r'), Key::Char('r'), Key::Char('a'), Key::Char('c')],
        Ghost(path),
        CommandTreeNode::new_action(
            Message::Rebase {
                source_type: RebaseSourceType::Revisions,
                destination_type: RebaseDestinationType::InsertAfter,
                destination: RebaseDestination::Current,
            },
        ),
    );
    let ghost path = seq![Key::Char('r'), Key::Char('r'), Key::Char('b'), Key::Enter];
    let done = bind(
        tree,
        Ghost(start),
        done,
        Ghost(menu_r_r_b),
        Ghost(Key::Enter),
        "Rebase revision before",
        "Select destination",
        vec![Key::Char('r'), Key::Char('r'), Key::Char('b'), Key::Enter],
        Ghost(path),
        CommandTreeNode::new_action(
            Message::Rebase {
                source_type: RebaseSourceType::Revisions,
                destination_type: RebaseDestinationType::InsertBefore,
                destination: RebaseDestination::Selection,
            },
        ),
    );
    let ghost path = seq![Key::Char('r'), Key::Char('r'), Key::Char('b'), Key::Char('m')];
    let done = bind(
        tree,
        Ghost(start),
        done,
        Ghost(menu_r_r_b),
        Ghost(Key::Char('m')),
        "Rebase revision before",
        "Trunk",
        vec![Key::Char('r'), Key::Char('r'), Key::Char('b'), Key::Char('m')],
        Ghost(path),
        CommandTreeNode::new_action(
            Message::Rebase {
                source_type: RebaseSourceType::Revisions,
                destination_type: RebaseDestinationType::InsertBefore,
                destination: RebaseDestination::Trunk,
            },
        ),
    );
    assert(done@ =~= rows_from_r_s_b_c());
}

/// Rows 157 to 168 of the key table.
pub open spec fn rows_from_r_r_b_c() -> Seq<Row> {
    seq![
        Row {
            group: "Rebase revision before"@,
            text: "@"@,
            keys: seq![Key::Char('r'), Key::Char('r'), Key::Char('b'), Key::Char('c')],
            node: leaf_model(
                Some(
                    Message::Rebase {
                        source_type: RebaseSourceType::Revisions,
                        destination_type: RebaseDestinationType::InsertBefore,
                        destination: RebaseDestination::Current,
                    },
                ),
                false,
            ),
        },
        Row {
            group: "Rebase revision onto"@,
            text: "Select destination"@,
            keys: seq![Key::Char('r'), Key::Char('r'), Key::Char('o'), Key::Enter],
            node: leaf_model(
                Some(
                    Message::Rebase {
                        source_type: RebaseSourceType::Revisions,
                        destination_type: RebaseDestinationType::Onto,
                        destination: RebaseDestination::Selection,
                    },
                ),
                false,
            ),
        },
        Row {
            group: "Rebase revision onto"@,
            text: "Trunk"@,
            keys: seq![Key::Char('r'), Key::Char('r'), Key::Char('o'), Key::Char('m')],
            node: leaf_model(
                Some(
                    Message::Rebase {
                        source_type: RebaseSourceType::Revisions,
                        destination_type: RebaseDestinationType::Onto,
                        destination: RebaseDestination::Trunk,
                    },
                ),
                false,
            ),
        },
        Row {
            group: "Rebase revision onto"@,
            text: "@"@,
            keys: seq![Key::Char('r'), Key::Char('r'), Key::Char('o'), Key::Char('c')],
            node: leaf_model(
                Some(
                    Message::Rebase {
                        source_type: RebaseSourceType::Revisions,
                        destination_type: RebaseDestinationType::Onto,
                        destination: RebaseDestination::Current,
                    },
                ),
                false,
            ),
        },
        Row {
            group: "Commands"@,
            text: "Restore"@,
            keys: seq![Key::Char('R')],
            node: leaf_model(None, true),
        },
        Row {
            group: "Restore"@,
            text: "Changes in selection"@,
            keys: seq![Key::Char('R'), Key::Char('r')],
            node: leaf_model(Some(Message::Restore { mode: RestoreMode::ChangesIn }), false),
        },
        Row {
            group: "Restore"@,
            text: "Changes in selection (restore descendants)"@,
            keys: seq![Key::Char('R'), Key::Char('d')],
            node: leaf_model(
                Some(Message::Restore { mode: RestoreMode::ChangesInRestoreDescendants }),
                false,
            ),
        },
        Row {
            group: "Restore"@,
            text: "From selection into @"@,
            keys: seq![Key::Char('R'), Key::Char('f')],
            node: leaf_model(Some(Message::Restore { mode: RestoreMode::From }), false),
        },
        Row {
            group: "Restore"@,
            text: "From @ into selection"@,
            keys: seq![Key::Char('R'), Key::Char('i')],
            node: leaf_model(Some(Message::Restore { mode: RestoreMode::Into }), false),
        },
        Row {
            group: "Restore"@,
            text: "From selection into destination"@,
            keys: seq![Key::Char('R'), Key::Char('R')],
            node: leaf_model(Some(Message::SaveSelection), true),
        },
        Row {
            group: "Restore into"@,
            text: "Select destination"@,
            keys: seq![Key::Char('R'), Key::Char('R'), Key::Enter],
            node: leaf_model(Some(Message::Restore { mode: RestoreMode::FromInto }), false),
        },
        Row {
            group: "Commands"@,
            text: "View"@,
            keys: seq![Key::Char('v')],
            node: leaf_model(None, true),
        },
    ]
}

fn bind_rows_from_r_r_b_c(tree: &mut CommandTree)
    requires
        is_menu(old(tree)@, Seq::<u64>::empty()),
        is_menu(old(tree)@, Seq::<u64>::empty()
            .push(Key::Char('r').spec_code())
            .push(Key::Char('r').spec_code())
            .push(Key::Char('b').spec_code())),
        is_menu(old(tree)@, Seq::<u64>::empty()
            .push(Key::Char('r').spec_code())
            .push(Key::Char('r').spec_code())
            .push(Key::Char('o').spec_code())),
    ensures
        registered_rows(old(tree)@, rows_from_r_r_b_c(), final(tree)@),
        is_menu(final(tree)@, Seq::<u64>::empty()),
        is_menu(final(tree)@, Seq::<u64>::empty().push(Key::Char('v').spec_code())),
{
    let ghost start = tree@;
    let ghost root = Seq::<u64>::empty();
    let ghost menu_r_r_b = Seq::<u64>::empty()
        .push(Key::Char('r').spec_code())
        .push(Key::Char('r').spec_code())
        .push(Key::Char('b').spec_code());
    let ghost menu_r_r_o = Seq::<u64>::empty()
        .push(Key::Char('r').spec_code())
        .push(Key::Char('r').spec_code())
        .push(Key::Char('o').spec_code());
    let done: Ghost<Seq<Row>> = Ghost(Seq::empty());
    let ghost path = seq![Key::Char('r'), Key::Char('r'), Key::Char('b'), Key::Char('c')];
    let done = bind(
        tree,
        Ghost(start),
        done,
        Ghost(menu_r_r_b),
        Ghost(Key::Char('c')),
        "Rebase revision before",
        "@",
        vec![Key::Char('r'), Key::Char('r'), Key::Char('b'), Key::Char('c')],
        Ghost(path),
        CommandTreeNode::new_action(
            Message::Rebase {
                source_type: RebaseSourceType::Revisions,
                destination_type: RebaseDestinationType::InsertBefore,
                destination: RebaseDestination::Current,
            },
        ),
    );
    let ghost path = seq![Key::Char('r'), Key::Char('r'), Key::Char('o'), Key::Enter];
    let done = bind(
        tree,
        Ghost(start),
        done,
        Ghost(menu_r_r_o),
        Ghost(Key::Enter),
        "Rebase revision onto",
        "Select destination",
        vec![Key::Char('r'), Key::Char('r'), Key::Char('o'), Key::Enter],
        Ghost(path),
        CommandTreeNode::new_action(
            Message::Rebase {
                source_type: RebaseSourceType::Revisions,
                destination_type: RebaseDestinationType::Onto,
                destination: RebaseDestination::Selection,
            },
        ),
    );
    let ghost path = seq![Key::Char('r'), Key::Char('r'), Key::Char('o'), Key::Char('m')];
    let done = bind(
        tree,
        Ghost(start),
        done,
        Ghost(menu_r_r_o),
        Ghost(Key::Char('m')),
        "Rebase revision onto",
        "Trunk",
        vec![Key::Char('r'), Key::Char('r'), Key::Char('o'), Key::Char('m')],
        Ghost(path),
        CommandTreeNode::new_action(
            Message::Rebase {
                source_type: RebaseSourceType::Revisions,
                destination_type: RebaseDestinationType::Onto,
                destination: RebaseDestination::Trunk,
            },
        ),
    );
    let ghost path = seq![Key::Char('r'), Key::Char('r'), Key::Char('o'), Key::Char('c')];
    let done = bind(
        tree,
        Ghost(start),
        done,
        Ghost(menu_r_r_o),
        Ghost(Key::Char('c')),
        "Rebase revision onto",
        "@",
        vec![Key::Char('r'), Key::Char('r'), Key::Char('o'), Key::Char('c')],
        Ghost(path),
        CommandTreeNode::new_action(
            Message::Rebase {
                source_type: RebaseSourceType::Revisions,
                destination_type: RebaseDestinationType::Onto,
                destination: RebaseDestination::Current,
            },
        ),
    );
    let ghost path = seq![Key::Char('R')];
    let done = bind(
        tree,
        Ghost(start),
        done,
        Ghost(root),
        Ghost(Key::Char('R')),
        "Commands",
        "Restore",
        vec![Key::Char('R')],
        Ghost(path),
        CommandTreeNode::new_children(),
    );
    let ghost menu_shift_r = Seq::<u64>::empty().push(Key::Char('R').spec_code());
    let ghost path = seq![Key::Char('R'), Key::Char('r')];
    let done = bind(
        tree,
        Ghost(start),
        done,
        Ghost(menu_shift_r),
        Ghost(Key::Char('r')),
        "Restore",
        "Changes in selection",
        vec![Key::Char('R'), Key::Char('r')],
        Ghost(path),
        CommandTreeNode::new_action(Message::Restore { mode: RestoreMode::ChangesIn }),
    );
    let ghost path = seq![Key::Char('R'), Key::Char('d')];
    let done = bind(
        tree,
        Ghost(start),
        done,
        Ghost(menu_shift_r),
        Ghost(Key::Char('d')),
        "Restore",
        "Changes in selection (restore descendants)",
        vec![Key::Char('R'), Key::Char('d')],
        Ghost(path),
        CommandTreeNode::new_action(
            Message::Restore { mode: RestoreMode::ChangesInRestoreDescendants },
        ),
    );
    let ghost path = seq![Key::Char('R'), Key::Char('f')];
    let done = bind(
        tree,
        Ghost(start),
        done,
        Ghost(menu_shift_r),
        Ghost(Key::Char('f')),
        "Restore",
        "From selection into @",
        vec![Key::Char('R'), Key::Char('f')],
        Ghost(path),
        CommandTreeNode::new_action(Message::Restore { mode: RestoreMode::From }),
    );
    let ghost path = seq![Key::Char('R'), Key::Char('i')];
    let done = bind(
        tree,
        Ghost(start),
        done,
        Ghost(menu_shift_r),
        Ghost(Key::Char('i')),
        "Restore",
        "From @ into selection",
        vec![Key::Char('R'), Key::Char('i')],
        Ghost(path),
        CommandTreeNode::new_action(Message::Restore { mode: RestoreMode::Into }),
    );
    let ghost path = seq![Key::Char('R'), Key::Char('R')];
    let done = bind(
        tree,
        Ghost(start),
        done,
        Ghost(menu_shift_r),
        Ghost(Key::Char('R')),
        "Restore",
        "From selection into destination",
        vec![Key::Char('R'), Key::Char('R')],
        Ghost(path),
        CommandTreeNode::new_action_with_children(Message::SaveSelection),
    );
    let ghost menu_shift_r_shift_r = Seq::<u64>::empty()
        .push(Key::Char('R').spec_code())
        .push(Key::Char('R').spec_code());
    let ghost path = seq![Key::Char('R'), Key::Char('R'), Key::Enter];
    let done = bind(
        tree,
        Ghost(start),
        done,
        Ghost(menu_shift_r_shift_r),
        Ghost(Key::Enter),
        "Restore into",
        "Select destination",
        vec![Key::Char('R'), Key::Char('R'), Key::Enter],
        Ghost(path),
        CommandTreeNode::new_action(Message::Restore { mode: RestoreMode::FromInto }),
    );
    let ghost path = seq![Key::Char('v')];
    let done = bind(
        tree,
        Ghost(start),
        done,
        Ghost(root),
        Ghost(Key::Char('v')),
        "Commands",
        "View",
        vec![Key::Char('v')],
        Ghost(path),
        CommandTreeNode::new_children(),
    );
    let ghost menu_v = Seq::<u64>::empty().push(Key::Char('v').spec_code());
    assert(done@ =~= rows_from_r_r_b_c());
}

/// Rows 169 to 180 of the key table.
pub open spec fn rows_from_v_v() -> Seq<Row> {
    seq![
        Row {
            group: "View"@,
            text: "Selection"@,
            keys: seq![Key::Char('v'), Key::Char('v')],
            node: leaf_model(Some(Message::View { mode: ViewMode::Default }), false),
        },
        Row {
            group: "View"@,
            text: "From selection to @"@,
            keys: seq![Key::Char('v'), Key::Char('f')],
            node: leaf_model(Some(Message::View { mode: ViewMode::FromSelection }), false),
        },
        Row {
            group: "View"@,
            text: "From trunk to selection"@,
            keys: seq![Key::Char('v'), Key::Char('m')],
            node: leaf_model(Some(Message::View { mode: ViewMode::FromTrunkToSelection }), false),
        },
        Row {
            group: "View"@,
            text: "From @ to selection"@,
            keys: seq![Key::Char('v'), Key::Char('t')],
            node: leaf_model(Some(Message::View { mode: ViewMode::ToSelection }), false),
        },
        Row {
            group: "View"@,
            text: "From selection to destination"@,
            keys: seq![Key::Char('v'), Key::Char('V')],
            node: leaf_model(Some(Message::SaveSelection), true),
        },
        Row {
            group: "View to destination"@,
            text: "Select destination"@,
            keys: seq![Key::Char('v'), Key::Char('V'), Key::Enter],
            node: leaf_model(
                Some(Message::View { mode: ViewMode::FromSelectionToDestination }),
                false,
            ),
        },
        Row {
            group: "Commands"@,
            text: "Revert"@,
            keys: seq![Key::Char('V')],
            node: leaf_model(None, true),
        },
        Row {
            group: "Revert"@,
            text: "Selection onto @"@,
            keys: seq![Key::Char('V'), Key::Char('v')],
            node: leaf_model(
                Some(
                    Message::Revert {
                        revision: RevertRevision::Selection,
                        destination_type: RevertDestinationType::Onto,
                        destination: RevertDestination::Current,
                    },
                ),
                false,
            ),
        },
        Row {
            group: "Revert"@,
            text: "Selection onto destination"@,
            keys: seq![Key::Char('V'), Key::Char('o')],
            node: leaf_model(Some(Message::SaveSelection), true),
        },
        Row {
            group: "Revert onto"@,
            text: "Select destination"@,
            keys: seq![Key::Char('V'), Key::Char('o'), Key::Enter],
            node: leaf_model(
                Some(
                    Message::Revert {
                        revision: RevertRevision::Saved,
                        destination_type: RevertDestinationType::Onto,
                        destination: RevertDestination::Selection,
                    },
                ),
                false,
            ),
        },
        Row {
            group: "Revert"@,
            text: "Selection after destination"@,
            keys: seq![Key::Char('V'), Key::Char('a')],
            node: leaf_model(Some(Message::SaveSelection), true),
        },
        Row {
            group: "Revert after"@,
            text: "Select destination"@,
            keys: seq![Key::Char('V'), Key::Char('a'), Key::Enter],
            node: leaf_model(
                Some(
                    Message::Revert {
                        revision: RevertRevision::Saved,
                        destination_type: RevertDestinationType::InsertAfter,
                        destination: RevertDestination::Selection,
                    },
                ),
                false,
            ),
        },
    ]
}

fn bind_rows_from_v_v(tree: &mut CommandTree)
    requires
        is_menu(old(tree)@, Seq::<u64>::empty()),
        is_menu(old(tree)@, Seq::<u64>::empty().push(Key::Char('v').spec_code())),
    ensures
        registered_rows(old(tree)@, rows_from_v_v(), final(tree)@),
        is_menu(final(tree)@, Seq::<u64>::empty()),
        is_menu(final(tree)@, Seq::<u64>::empty().push(Key::Char('V').spec_code())),
{
    let ghost start = tree@;
    let ghost root = Seq::<u64>::empty();
    let ghost menu_v = Seq::<u64>::empty().push(Key::Char('v').spec_code());
    let done: Ghost<Seq<Row>> = Ghost(Seq::empty());
    let ghost path = seq![Key::Char('v'), Key::Char('v')];
    let done = bind(
        tree,
        Ghost(start),
        done,
        Ghost(menu_v),
        Ghost(Key::Char('v')),
        "View",
        "Selection",
        vec![Key::Char('v'), Key::Char('v')],
        Ghost(path),
        CommandTreeNode::new_action(Message::View { mode: ViewMode::Default }),
    );
    let ghost path = seq![Key::Char('v'), Key::Char('f')];
    let done = bind(
        tree,
        Ghost(start),
        done,
        Ghost(menu_v),
        Ghost(Key::Char('f')),
        "View",
        "From selection to @",
        vec![Key::Char('v'), Key::Char('f')],
        Ghost(path),
        CommandTreeNode::new_action(Message::View { mode: ViewMode::FromSelection }),
    );
    let ghost path = seq![Key::Char('v'), Key::Char('m')];
    let done = bind(
        tree,
        Ghost(start),
        done,
        Ghost(menu_v),
        Ghost(Key::Char('m')),
        "View",
        "From trunk to selection",
        vec![Key::Char('v'), Key::Char('m')],
        Ghost(path),
        CommandTreeNode::new_action(Message::View { mode: ViewMode::FromTrunkToSelection }),
    );
    let ghost path = seq![Key::Char('v'), Key::Char('t')];
    let done = bind(
        tree,
        Ghost(start),
        done,
        Ghost(menu_v),
        Ghost(Key::Char('t')),
        "View",
        "From @ to selection",
        vec![Key::Char('v'), Key::Char('t')],
        Ghost(path),
        CommandTreeNode::new_action(Message::View { mode: ViewMode::ToSelection }),
    );
    let ghost path = seq![Key::Char('v'), Key::Char('V')];
    let done = bind(
        tree,
        Ghost(start),
        done,
        Ghost(menu_v),
        Ghost(Key::Char('V')),
        "View",
        "From selection to destination",
        vec![Key::Char('v'), Key::Char('V')],
        Ghost(path),
        CommandTreeNode::new_action_with_children(Message::SaveSelection),
    );
    let ghost menu_v_shift_v = Seq::<u64>::empty()
        .push(Key::Char('v').spec_code())
        .push(Key::Char('V').spec_code());
    let ghost path = seq![Key::Char('v'), Key::Char('V'), Key::Enter];
    let done = bind(
        tree,
        Ghost(start),
        done,
        Ghost(menu_v_shift_v),
        Ghost(Key::Enter),
        "View to destination",
        "Select destination",
        vec![Key::Char('v'), Key::Char('V'), Key::Enter],
        Ghost(path),
        CommandTreeNode::new_action(
            Message::View { mode: ViewMode::FromSelectionToDestination },
        ),
    );
    let ghost path = seq![Key::Char('V')];
    let done = bind(
        tree,
        Ghost(start),
        done,
        Ghost(root),
        Ghost(Key::Char('V')),
        "Commands",
        "Revert",
        vec![Key::Char('V')],
        Ghost(path),
        CommandTreeNode::new_children(),
    );
    let ghost menu_shift_v = Seq::<u64>::empty().push(Key::Char('V').spec_code());
    let ghost path = seq![Key::Char('V'), Key::Char('v')];
    let done = bind(
        tree,
        Ghost(start),
        done,
        Ghost(menu_shift_v),
        Ghost(Key::Char('v')),
        "Revert",
        "Selection onto @",
        vec![Key::Char('V'), Key::Char('v')],
        Ghost(path),
        CommandTreeNode::new_action(
            Message::Revert {
                revision: RevertRevision::Selection,
                destination_type: RevertDestinationType::Onto,
                destination: RevertDestination::Current,
            },
        ),
    );
    let ghost path = seq![Key::Char('V'), Key::Char('o')];
    let done = bind(
        tree,
        Ghost(start),
        done,
        Ghost(menu_shift_v),
        Ghost(Key::Char('o')),
        "Revert",
        "Selection onto destination",
        vec![Key::Char('V'), Key::Char('o')],
        Ghost(path),
        CommandTreeNode::new_action_with_children(Message::SaveSelection),
    );
    let ghost menu_shift_v_o = Seq::<u64>::empty()
        .push(Key::Char('V').spec_code())
        .push(Key::Char('o').spec_code());
    let ghost path = seq![Key::Char('V'), Key::Char('o'), Key::Enter];
    let done = bind(
        tree,
        Ghost(start),
        done,
        Ghost(menu_shift_v_o),
        Ghost(Key::Enter),
        "Revert onto",
        "Select destination",
        vec![Key::Char('V'), Key::Char('o'), Key::Enter],
        Ghost(path),
        CommandTreeNode::new_action(
            Message::Revert {
                revision: RevertRevision::Saved,
                destination_type: RevertDestinationType::Onto,
                destination: RevertDestination::Selection,
            },
        ),
    );
    let ghost path = seq![Key::Char('V'), Key::Char('a')];
    let done = bind(
        tree,
        Ghost(start),
        done,
        Ghost(menu_shift_v),
        Ghost(Key::Char('a')),
        "Revert",
        "Selection after destination",
        vec![Key::Char('V'), Key::Char('a')],
        Ghost(path),
        CommandTreeNode::new_action_with_children(Message::SaveSelection),
    );
    let ghost menu_shift_v_a = Seq::<u64>::empty()
        .push(Key::Char('V').spec_code())
        .push(Key::Char('a').spec_code());
    let ghost path = seq![Key::Char('V'), Key::Char('a'), Key::Enter];
    let done = bind(
        tree,
        Ghost(start),
        done,
        Ghost(menu_shift_v_a),
        Ghost(Key::Enter),
        "Revert after",
        "Select destination",
        vec![Key::Char('V'), Key::Char('a'), Key::Enter],
        Ghost(path),
        CommandTreeNode::new_action(
            Message::Revert {
                revision: RevertRevision::Saved,
                destination_type: RevertDestinationType::InsertAfter,
                destination: RevertDestination::Selection,
            },
        ),
    );
    assert(done@ =~= rows_from_v_v());
}

/// Rows 181 to 185 of the key table.
pub open spec fn rows_from_shift_v_b() -> Seq<Row> {
    seq![
        Row {
            group: "Revert"@,
            text: "Selection before destination"@,
            keys: seq![Key::Char('V'), Key::Char('b')],
            node: leaf_model(Some(Message::SaveSelection), true),
        },
        Row {
            group: "Revert before"@,
            text: "Select destination"@,
            keys: seq![Key::Char('V'), Key::Char('b'), Key::Enter],
            node: leaf_model(
                Some(
                    Message::Revert {
                        revision: RevertRevision::Saved,
                        destination_type: RevertDestinationType::InsertBefore,
                        destination: RevertDestination::Selection,
                    },
                ),
                false,
            ),
        },
        Row {
            group: "Commands"@,
            text: "Undo"@,
            keys: seq![Key::Char('u')],
            node: leaf_model(None, true),
        },
        Row {
            group: "Undo"@,
            text: "Undo last operation"@,
            keys: seq![Key::Char('u'), Key::Char('u')],
            node: leaf_model(Some(Message::Undo), false),
        },
        Row {
            group: "Undo"@,
            text: "Redo last operation"@,
            keys: seq![Key::Char('u'), Key::Char('r')],
            node: leaf_model(Some(Message::Redo), false),
        },
    ]
}

fn bind_rows_from_shift_v_b(tree: &mut CommandTree)
    requires
        is_menu(old(tree)@, Seq::<u64>::empty()),
        is_menu(old(tree)@, Seq::<u64>::empty().push(Key::Char('V').spec_code())),
    ensures
        registered_rows(old(tree)@, rows_from_shift_v_b(), final(tree)@),
        is_menu(final(tree)@, Seq::<u64>::empty()),
{
    let ghost start = tree@;
    let ghost root = Seq::<u64>::empty();
    let ghost menu_shift_v = Seq::<u64>::empty().push(Key::Char('V').spec_code());
    let done: Ghost<Seq<Row>> = Ghost(Seq::empty());
    let ghost path = seq![Key::Char('V'), Key::Char('b')];
    let done = bind(
        tree,
        Ghost(start),
        done,
        Ghost(menu_shift_v),
        Ghost(Key::Char('b')),
        "Revert",
        "Selection before destination",
        vec![Key::Char('V'), Key::Char('b')],
        Ghost(path),
        CommandTreeNode::new_action_with_children(Message::SaveSelection),
    );
    let ghost menu_shift_v_b = Seq::<u64>::empty()
        .push(Key::Char('V').spec_code())
        .push(Key::Char('b').spec_code());
    let ghost path = seq![Key::Char('V'), Key::Char('b'), Key::Enter];
    let done = bind(
        tree,
        Ghost(start),
        done,
        Ghost(menu_shift_v_b),
        Ghost(Key::Enter),
        "Revert before",
        "Select destination",
        vec![Key::Char('V'), Key::Char('b'), Key::Enter],
        Ghost(path),
        CommandTreeNode::new_action(
            Message::Revert {
                revision: RevertRevision::Saved,
                destination_type: RevertDestinationType::InsertBefore,
                destination: RevertDestination::Selection,
            },
        ),
    );
    let ghost path = seq![Key::Char('u')];
    let done = bind(
        tree,
        Ghost(start),
        done,
        Ghost(root),
        Ghost(Key::Char('u')),
        "Commands",
        "Undo",
        vec![Key::Char('u')],
        Ghost(path),
        CommandTreeNode::new_children(),
    );
    let ghost menu_u = Seq::<u64>::empty().push(Key::Char('u').spec_code());
    let ghost path = seq![Key::Char('u'), Key::Char('u')];
    let done = bind(
        tree,
        Ghost(start),
        done,
        Ghost(menu_u),
        Ghost(Key::Char('u')),
        "Undo",
        "Undo last operation",
        vec![Key::Char('u'), Key::Char('u')],
        Ghost(path),
        CommandTreeNode::new_action(Message::Undo),
    );
    let ghost path = seq![Key::Char('u'), Key::Char('r')];
    let done = bind(
        tree,
        Ghost(start),
        done,
        Ghost(menu_u),
        Ghost(Key::Char('r')),
        "Undo",
        "Redo last operation",
        vec![Key::Char('u'), Key::Char('r')],
        Ghost(path),
        CommandTreeNode::new_action(Message::Redo),
    );
    assert(done@ =~= rows_from_shift_v_b());
}

/// The built-in key table, first row to last.
pub open spec fn default_rows() -> Seq<Row> {
    rows_from_a()
        + rows_from_b_m_m()
        + rows_from_b_s()
        + rows_from_shift_d_b()
        + rows_from_g_f_f()
        + rows_from_g_p_n()
        + rows_from_m_shift_a()
        + rows_from_p_shift_p()
        + rows_from_shift_p_shift_p()
        + rows_from_shift_s()
        + rows_from_r_m()
        + rows_from_r_b_b_c()
        + rows_from_r_s_b_c()
        + rows_from_r_r_b_c()
        + rows_from_v_v()
        + rows_from_shift_v_b()
}

impl CommandTree {
    /// The trie of the built-in key table: an empty root menu with every row
    /// of [`default_rows`] registered in order.
    pub fn new() -> (tree: Self)
        ensures
            registered_rows(leaf_model(None, true), default_rows(), tree@),
            tree.0.children.is_some(),
    {
        let mut tree = Self(CommandTreeNode::new_children());
        let ghost start = tree@;
        let ghost mut rows = Seq::<Row>::empty();
        let ghost now = tree@;
        bind_rows_from_a(&mut tree);
        proof {
            lemma_registered_rows_concat(start, rows, now, rows_from_a(), tree@);
            rows = rows + rows_from_a();
        }
        let ghost now = tree@;
        bind_rows_from_b_m_m(&mut tree);
        proof {
            lemma_registered_rows_concat(start, rows, now, rows_from_b_m_m(), tree@);
            rows = rows + rows_from_b_m_m();
        }
        let ghost now = tree@;
        bind_rows_from_b_s(&mut tree);
        proof {
            lemma_registered_rows_concat(start, rows, now, rows_from_b_s(), tree@);
            rows = rows + rows_from_b_s();
        }
        let ghost now = tree@;
        bind_rows_from_shift_d_b(&mut tree);
        proof {
            lemma_registered_rows_concat(start, rows, now, rows_from_shift_d_b(), tree@);
            rows = rows + rows_from_shift_d_b();
        }
        let ghost now = tree@;
        bind_rows_from_g_f_f(&mut tree);
        proof {
            lemma_registered_rows_concat(start, rows, now, rows_from_g_f_f(), tree@);
            rows = rows + rows_from_g_f_f();
        }
        let ghost now = tree@;
        bind_rows_from_g_p_n(&mut tree);
        proof {
            lemma_registered_rows_concat(start, rows, now, rows_from_g_p_n(), tree@);
            rows = rows + rows_from_g_p_n();
        }
        let ghost now = tree@;
        bind_rows_from_m_shift_a(&mut tree);
        proof {
            lemma_registered_rows_concat(start, rows, now, rows_from_m_shift_a(), tree@);
            rows = rows + rows_from_m_shift_a();
        }
        let ghost now = tree@;
        bind_rows_from_p_shift_p(&mut tree);
        proof {
            lemma_registered_rows_concat(start, rows, now, rows_from_p_shift_p(), tree@);
            rows = rows + rows_from_p_shift_p();
        }
        let ghost now = tree@;
        bind_rows_from_shift_p_shift_p(&mut tree);
        proof {
            lemma_registered_rows_concat(start, rows, now, rows_from_shift_p_shift_p(), tree@);
            rows = rows + rows_from_shift_p_shift_p();
        }
        let ghost now = tree@;
        bind_rows_from_shift_s(&mut tree);
        proof {
            lemma_registered_rows_concat(start, rows, now, rows_from_shift_s(), tree@);
            rows = rows + rows_from_shift_s();
        }
        let ghost now = tree@;
        bind_rows_from_r_m(&mut tree);
        proof {
            lemma_registered_rows_concat(start, rows, now, rows_from_r_m(), tree@);
            rows = rows + rows_from_r_m();
        }
        let ghost now = tree@;
        bind_rows_from_r_b_b_c(&mut tree);
        proof {
            lemma_registered_rows_concat(start, rows, now, rows_from_r_b_b_c(), tree@);
            rows = rows + rows_from_r_b_b_c();
        }
        let ghost now = tree@;
        bind_rows_from_r_s_b_c(&mut tree);
        proof {
            lemma_registered_rows_concat(start, rows, now, rows_from_r_s_b_c(), tree@);
            rows = rows + rows_from_r_s_b_c();
        }
        let ghost now = tree@;
        bind_rows_from_r_r_b_c(&mut tree);
        proof {
            lemma_registered_rows_concat(start, rows, now, rows_from_r_r_b_c(), tree@);
            rows = rows + rows_from_r_r_b_c();
        }
        let ghost now = tree@;
        bind_rows_from_v_v(&mut tree);
        proof {
            lemma_registered_rows_concat(start, rows, now, rows_from_v_v(), tree@);
            rows = rows + rows_from_v_v();
        }
        let ghost now = tree@;
        bind_rows_from_shift_v_b(&mut tree);
        proof {
            lemma_registered_rows_concat(start, rows, now, rows_from_shift_v_b(), tree@);
            rows = rows + rows_from_shift_v_b();
        }
        assert(rows =~= default_rows());
        assert(tree@[Seq::<u64>::empty()] == tree.0.info());
        tree
    }
}

} // verus!
