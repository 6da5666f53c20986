//! The interaction state machine: the cursor into the flattened log, the
//! saved selection of two-step commands, the pending keys, the modal
//! sub-states and the queue of engine invocations.

use vstd::prelude::*;
use vstd::string::*;
use crate::command_tree::{display_unbound_error_lines, unbound_shown, CommandTree};
use crate::help::{help_text, lines_view, sorted_help};
use crate::keys::{codes_of, names_key};
use crate::keys::Key;
use crate::log_tree::{
    blocks_view, duplicate_position, flat_blocks, flat_index, flat_positions,
    get_parent_tree_position, lemma_flat_index, lemma_next_sibling, lemma_flat_lengths,
    lemma_flat_position, lemma_node_in_tree, lemma_parent_of_node, lemma_place_of_visible,
    lemma_prev_sibling, lemma_stored_view, lemma_toggle_keeps, lemma_visible_is_node,
    lemma_working_copy_index, next_sibling_position, node_at, nodes_view, parent_position,
    positions_view, prev_sibling_position, stored_at, toggled, visible, well_formed,
    working_copy_index, JjLog, KindView, LogTreeError, LogTreeNode, NodeView, TreePosition,
    DIFF_HUNK_LINE_IDX,
};
use crate::shell_out::{command_text, commands_view, JjCommand, JjCommandError, JjCommandView};
use crate::strings::{filter_items, filtered, insert_char_at, remove_char_at, strings_view};
use crate::text::{
    ansi_into_text, ansi_text, duplicate_lines, opt_text_view, raw_line, Line, SpanView, Text,
};
use crate::update::{Message, Popup, TextInputLocation};

pub use crate::shell_out::GlobalArgs;

verus! {

broadcast use vstd::string::group_string_axioms;

/// Whether the program goes on.
#[derive(Debug, PartialEq, Eq, Clone, Copy, Structural)]
pub enum State {
    Running,
    Quit,
}

impl Default for State {
    fn default() -> (s: Self)
        ensures
            s == State::Running,
    {
        State::Running
    }
}

/// The scroll state of the log list: the index of the first node shown and
/// the index of the node under the cursor.
#[derive(Debug, Clone, Copy, PartialEq, Eq, Structural)]
pub struct ListState {
    pub offset: usize,
    pub selected: Option<usize>,
}

/// A rectangle of the screen, in cells.
#[derive(Debug, Clone, Copy, PartialEq, Eq, Structural)]
pub struct Rect {
    pub x: u16,
    pub y: u16,
    pub width: u16,
    pub height: u16,
}

/// The whole state of the interaction.
#[derive(Debug)]
pub struct Model {
    pub global_args: GlobalArgs,
    pub display_repository: String,
    pub revset: String,
    pub state: State,
    pub command_tree: CommandTree,
    /// The keys typed so far of a command that is not complete.
    pub command_keys: Vec<Key>,
    /// The invocations that are still to run, the next one first.
    pub queued_jj_commands: Vec<JjCommand>,
    /// What the invocations of the current queue have shown so far.
    pub accumulated_command_output: Vec<Line>,
    pub saved_change_id: Option<String>,
    pub saved_file_path: Option<String>,
    pub saved_tree_position: Option<TreePosition>,
    pub jj_log: JjLog,
    /// The display blocks of the visible nodes.
    pub log_list: Vec<Text>,
    pub log_list_state: ListState,
    /// The positions of the visible nodes, in step with `log_list`.
    pub log_list_tree_positions: Vec<TreePosition>,
    pub log_list_layout: Rect,
    pub log_list_scroll_padding: usize,
    pub info_list: Option<Text>,
    /// Current fuzzy searchable popup for selection lists
    pub current_popup: Option<Popup>,
    /// Where text input is currently active (source of truth)
    pub text_input_location: TextInputLocation,
    /// Filter text for fuzzy searching in popups
    pub popup_filter: String,
    /// Selected index in the current popup's filtered list
    pub popup_selection: usize,
    /// Text input buffer for text prompt popups
    pub text_input: String,
    /// Cursor position in text input, in characters
    pub text_cursor: usize,
    /// When the mouse was last clicked, in milliseconds of the caller's clock
    pub last_click_time: Option<u64>,
    pub last_click_pos: Option<(u16, u16)>,
}

/// The text of one unstyled line.
pub open spec fn message_text(message: Seq<char>) -> Seq<Seq<SpanView>> {
    seq![raw_line(message)]
}

/// Whether `after` is `before` with the message that the selection does not
/// fit.
pub open spec fn invalid_selection_shown(before: Model, after: Model) -> bool {
    &&& after == (Model { info_list: after.info_list, ..before })
    &&& opt_text_view(after.info_list) == Some(message_text("Invalid selection"@))
}

impl Model {
    /// Whether the log is shown as it is and the key table has a root menu.
    pub open spec fn wf(&self) -> bool {
        &&& self.log_wf()
        &&& self.command_tree.0.children.is_some()
    }

    /// Whether the lists that are shown are those of the log and the cursor
    /// is on one of the nodes shown.
    pub open spec fn log_wf(&self) -> bool {
        &&& self.jj_log.wf()
        &&& self.jj_log.flattened()
        &&& blocks_view(self.log_list@) == flat_blocks(self.jj_log@)
        &&& positions_view(self.log_list_tree_positions@) == flat_positions(
            self.jj_log@,
            Seq::empty(),
        )
        &&& self.log_list.len() == self.log_list_tree_positions.len()
        &&& self.log_list_state.selected.is_some()
        &&& self.log_list_state.selected.unwrap() < self.log_list.len() || (
        self.log_list_state.selected.unwrap() == 0 && self.log_list.len() == 0)
    }

    /// The position under the cursor, if the cursor is on a node.
    pub open spec fn selected_position(&self) -> Option<Seq<usize>> {
        match self.log_list_state.selected {
            Some(s) => if s < self.log_list_tree_positions@.len() {
                Some(self.log_list_tree_positions@[s as int]@)
            } else {
                None
            },
            None => None,
        }
    }

    /// The commit that a position lies in.
    pub open spec fn commit_at(&self, pos: Seq<usize>) -> Option<NodeView> {
        if pos.len() > 0 && pos[0] < self.jj_log@.len() {
            Some(self.jj_log@[pos[0] as int])
        } else {
            None
        }
    }

    /// The change id of the commit that a position lies in.
    pub open spec fn change_id_at(&self, pos: Seq<usize>) -> Option<Seq<char>> {
        match self.commit_at(pos) {
            Some(n) => match n.kind {
                KindView::Commit { change_id, .. } => Some(change_id),
                _ => None,
            },
            None => None,
        }
    }

    /// The path of the file diff that a position lies in.
    pub open spec fn file_path_at(&self, pos: Seq<usize>) -> Option<Seq<char>> {
        if pos.len() > 1 {
            match node_at(self.jj_log@, pos.take(2)) {
                Some(n) => match n.kind {
                    KindView::FileDiff { path } => Some(path),
                    _ => None,
                },
                None => None,
            }
        } else {
            None
        }
    }

    /// The change id under the cursor.
    pub open spec fn selected_change_id(&self) -> Option<Seq<char>> {
        match self.selected_position() {
            Some(pos) => self.change_id_at(pos),
            None => None,
        }
    }

    /// The file path under the cursor.
    pub open spec fn selected_file_path(&self) -> Option<Seq<char>> {
        match self.selected_position() {
            Some(pos) => self.file_path_at(pos),
            None => None,
        }
    }

    pub fn quit(&mut self)
        ensures
            *final(self) == (Model { state: State::Quit, ..*old(self) }),
    {
        self.state = State::Quit;
    }

    /// Whether `after` is what [`Model::toggle_ignore_immutable`] makes of `before`.
    pub open spec fn toggle_ignore_immutable_result(before: Model, after: Model) -> bool {
        &&& (after == (Model {
            global_args: GlobalArgs {
                ignore_immutable: !before.global_args.ignore_immutable,
                ..before.global_args
            },
            ..before
            }))
    }

    pub fn toggle_ignore_immutable(&mut self)
        ensures
            Self::toggle_ignore_immutable_result(*old(self), *final(self)),
    {
        self.global_args.ignore_immutable = !self.global_args.ignore_immutable;
    }

    pub(crate) fn log_offset(&self) -> (r: usize)
        ensures
            r == self.log_list_state.offset,
    {
        self.log_list_state.offset
    }

    /// The index under the cursor; 0 where there is none.
    pub(crate) fn log_selected(&self) -> (r: usize)
        ensures
            r == match self.log_list_state.selected {
                Some(s) => s,
                None => 0,
            },
    {
        match self.log_list_state.selected {
            Some(s) => s,
            None => 0,
        }
    }

    pub(crate) fn log_select(&mut self, idx: usize)
        ensures
            *final(self) == (Model {
                log_list_state: ListState { selected: Some(idx), ..old(self).log_list_state },
                ..*old(self)
            }),
    {
        self.log_list_state.selected = Some(idx);
    }

    /// The position under the cursor.
    pub fn get_selected_tree_position(&self) -> (r: Option<TreePosition>)
        ensures
            r.is_some() == self.selected_position().is_some(),
            r.is_some() ==> r.unwrap()@ == self.selected_position().unwrap(),
    {
        match self.log_list_state.selected {
            Some(s) => if s < self.log_list_tree_positions.len() {
                Some(duplicate_position(&self.log_list_tree_positions[s]))
            } else {
                None
            },
            None => None,
        }
    }

    fn get_change_id(&self, tree_pos: &TreePosition) -> (r: Option<&String>)
        ensures
            r.is_some() == self.change_id_at(tree_pos@).is_some(),
            r.is_some() ==> r.unwrap()@ == self.change_id_at(tree_pos@).unwrap(),
    {
        match self.jj_log.get_tree_commit(tree_pos) {
            None => None,
            Some(commit) => commit.change_id(),
        }
    }

    fn get_file_path(&self, tree_pos: &TreePosition) -> (r: Option<&String>)
        ensures
            r.is_some() == self.file_path_at(tree_pos@).is_some(),
            r.is_some() ==> r.unwrap()@ == self.file_path_at(tree_pos@).unwrap(),
    {
        proof {
            lemma_stored_view(self.jj_log.log_tree@, tree_pos@.take(2));
        }
        match self.jj_log.get_tree_file_diff(tree_pos) {
            None => None,
            Some(file_diff) => file_diff.path(),
        }
    }

    /// The change id under the cursor.
    pub fn get_selected_change_id(&self) -> (r: Option<&String>)
        ensures
            r.is_some() == self.selected_change_id().is_some(),
            r.is_some() ==> r.unwrap()@ == self.selected_change_id().unwrap(),
    {
        match self.log_list_state.selected {
            Some(s) => if s < self.log_list_tree_positions.len() {
                self.get_change_id(&self.log_list_tree_positions[s])
            } else {
                None
            },
            None => None,
        }
    }

    /// The file path under the cursor.
    pub fn get_selected_file_path(&self) -> (r: Option<&String>)
        ensures
            r.is_some() == self.selected_file_path().is_some(),
            r.is_some() ==> r.unwrap()@ == self.selected_file_path().unwrap(),
    {
        match self.log_list_state.selected {
            Some(s) => if s < self.log_list_tree_positions.len() {
                self.get_file_path(&self.log_list_tree_positions[s])
            } else {
                None
            },
            None => None,
        }
    }

    /// The change id that was saved by the first step of a two-step command.
    pub fn get_saved_change_id(&self) -> (r: Option<&String>)
        ensures
            r.is_some() == self.saved_change_id.is_some(),
            r.is_some() ==> *r.unwrap() == self.saved_change_id.unwrap(),
    {
        self.saved_change_id.as_ref()
    }

    /// The file path that was saved with the change id.
    pub fn get_saved_file_path(&self) -> (r: Option<&String>)
        ensures
            r.is_some() == self.saved_file_path.is_some(),
            r.is_some() ==> *r.unwrap() == self.saved_file_path.unwrap(),
    {
        self.saved_file_path.as_ref()
    }

    /// The places in the flattened list of the saved commit and of the saved
    /// file diff, for highlighting.
    pub fn get_saved_selection_flat_log_idxs(&self) -> (r: (Option<usize>, Option<usize>))
        ensures
            self.saved_tree_position.is_none() ==> r == (None::<usize>, None::<usize>),
            self.saved_tree_position.is_some() ==> {
                let pos = self.saved_tree_position.unwrap()@;
                &&& r.0.is_some() == (pos.len() > 0 && pos[0] < self.jj_log.log_tree@.len())
                &&& r.0.is_some() ==> r.0.unwrap() == self.jj_log.log_tree@[pos[0] as int].flat_log_idx
                &&& r.1.is_some() == (pos.len() > 1 && stored_at(
                    self.jj_log.log_tree@,
                    pos.take(2),
                ).is_some())
                &&& r.1.is_some() ==> r.1.unwrap() == stored_at(
                    self.jj_log.log_tree@,
                    pos.take(2),
                ).unwrap().flat_log_idx
            },
    {
        match &self.saved_tree_position {
            None => (None, None),
            Some(saved_tree_position) => {
                let commit_idx = match self.jj_log.get_tree_commit(saved_tree_position) {
                    Some(commit) => Some(commit.flat_log_idx),
                    None => None,
                };
                let file_diff_idx = match self.jj_log.get_tree_file_diff(saved_tree_position) {
                    Some(file_diff) => Some(file_diff.flat_log_idx),
                    None => None,
                };
                (commit_idx, file_diff_idx)
            },
        }
    }

    /// Whether the cursor is in the commit of the working copy.
    pub fn is_selected_working_copy(&self) -> (r: bool)
        ensures
            r == match self.selected_position() {
                Some(pos) => match self.commit_at(pos) {
                    Some(n) => n.kind matches KindView::Commit { current_working_copy, .. }
                        && current_working_copy,
                    None => false,
                },
                None => false,
            },
    {
        match self.log_list_state.selected {
            Some(s) => if s < self.log_list_tree_positions.len() {
                match self.jj_log.get_tree_commit(&self.log_list_tree_positions[s]) {
                    None => false,
                    Some(commit) => commit.is_working_copy(),
                }
            } else {
                false
            },
            None => false,
        }
    }

    /// Whether `after` is what [`Model::select_next_node`] makes of `before`.
    pub open spec fn select_next_node_result(before: Model, after: Model) -> bool {
        &&& (after == (Model {
            log_list_state: ListState {
                selected: match before.log_list_state.selected {
                    Some(s) => if s + 1 < before.log_list.len() {
                        Some((s + 1) as usize)
                    } else {
                        Some(s)
                    },
                    None => None,
                },
                ..before.log_list_state
            },
            ..before
            }))
        &&& (before.wf() ==> after.wf())
    }

    /// Moves the cursor to the next node shown, if there is one.
    pub fn select_next_node(&mut self)
        ensures
            Self::select_next_node_result(*old(self), *final(self)),
    {
        match self.log_list_state.selected {
            Some(s) => {
                if s < self.log_list.len() && s + 1 < self.log_list.len() {
                    self.log_list_state.selected = Some(s + 1);
                }
            },
            None => {},
        }
    }

    /// Whether `after` is what [`Model::select_prev_node`] makes of `before`.
    pub open spec fn select_prev_node_result(before: Model, after: Model) -> bool {
        &&& (after == (Model {
            log_list_state: ListState {
                selected: match before.log_list_state.selected {
                    Some(s) => if s > 0 {
                        Some((s - 1) as usize)
                    } else {
                        Some(s)
                    },
                    None => None,
                },
                ..before.log_list_state
            },
            ..before
            }))
        &&& (before.wf() ==> after.wf())
    }

    /// Moves the cursor to the node shown before, if there is one.
    pub fn select_prev_node(&mut self)
        ensures
            Self::select_prev_node_result(*old(self), *final(self)),
    {
        match self.log_list_state.selected {
            Some(s) => {
                if s > 0 {
                    self.log_list_state.selected = Some(s - 1);
                }
            },
            None => {},
        }
    }

    /// Moves the cursor to the node at a position that is visible.
    fn select_position(&mut self, pos: &TreePosition)
        requires
            old(self).wf(),
            visible(old(self).jj_log@, pos@),
        ensures
            final(self).wf(),
            final(self).selected_position() == Some(pos@),
            final(self).log_list_state.selected == Some(flat_index(old(self).jj_log@, pos@) as usize),
            *final(self) == (Model { log_list_state: final(self).log_list_state, ..*old(self) }),
            final(self).log_list_state.offset == old(self).log_list_state.offset,
    {
        proof {
            lemma_place_of_visible(self.jj_log.log_tree@, 0, pos@);
            lemma_flat_index(self.jj_log@, Seq::empty(), pos@);
            lemma_flat_lengths(self.jj_log@, Seq::empty());
            lemma_visible_is_node(self.jj_log@, pos@);
            assert(Seq::<usize>::empty() + pos@ =~= pos@);
        }
        match self.jj_log.get_tree_node(pos) {
            Ok(node) => {
                let idx = node.flat_log_idx;
                self.log_select(idx);
                assert(self.log_list_tree_positions@[idx as int]@ == positions_view(
                    self.log_list_tree_positions@,
                )[idx as int]);
            },
            Err(_) => {
                assert(false);
            },
        }
    }

    /// The position under the cursor is that of a visible node.
    proof fn lemma_selected_visible(&self)
        requires
            self.log_wf(),
            self.log_list.len() > 0,
        ensures
            self.selected_position().is_some(),
            visible(self.jj_log@, self.selected_position().unwrap()),
            node_at(self.jj_log@, self.selected_position().unwrap()).is_some(),
            flat_index(self.jj_log@, self.selected_position().unwrap())
                == self.log_list_state.selected.unwrap(),
    {
        let s = self.log_list_state.selected.unwrap() as int;
        let flat = flat_positions(self.jj_log@, Seq::empty());
        assert(positions_view(self.log_list_tree_positions@)[s] == self.log_list_tree_positions@[s]@);
        lemma_flat_position(self.jj_log@, 0, Seq::empty(), s);
        assert(flat[s].skip(0) =~= flat[s]);
        lemma_visible_is_node(self.jj_log@, flat[s]);
    }

    /// Whether `after` is what [`Model::select_current_working_copy`] makes of `before`.
    pub open spec fn select_current_working_copy_result(before: Model, after: Model) -> bool {
        &&& (after.wf())
        &&& (after == (Model { log_list_state: after.log_list_state, ..before }))
        &&& (working_copy_index(before.jj_log@) < before.jj_log@.len()
            ==> after.selected_position() == Some(
            seq![working_copy_index(before.jj_log@) as usize],
            ))
        &&& (working_copy_index(before.jj_log@) >= before.jj_log@.len() ==> after == before)
    }

    /// Moves the cursor to the commit of the working copy, if the log has
    /// one.
    pub fn select_current_working_copy(&mut self)
        requires
            old(self).wf(),
        ensures
            Self::select_current_working_copy_result(*old(self), *final(self)),
    {
        let ghost k = working_copy_index(self.jj_log@);
        let found = match self.jj_log.get_current_commit() {
            Some(commit) => Some(commit.flat_log_idx),
            None => None,
        };
        match found {
            Some(idx) => {
                proof {
                    lemma_working_copy_index(self.jj_log@);
                    assert(self.jj_log@.len() <= usize::MAX);
                    let pos = seq![k as usize];
                    lemma_place_of_visible(self.jj_log.log_tree@, 0, pos);
                    lemma_flat_index(self.jj_log@, Seq::empty(), pos);
                    lemma_flat_lengths(self.jj_log@, Seq::empty());
                    assert(Seq::<usize>::empty() + pos =~= pos);
                    assert(positions_view(self.log_list_tree_positions@)[idx as int]
                        == self.log_list_tree_positions@[idx as int]@);
                }
                self.log_select(idx);
            },
            None => {},
        }
    }

    /// Whether `after` is what [`Model::select_parent_node`] makes of `before`.
    pub open spec fn select_parent_node_result(before: Model, after: Model) -> bool {
        &&& (after.wf())
        &&& (after == (Model { log_list_state: after.log_list_state, ..before }))
        &&& (match before.selected_position() {
            Some(pos) => match parent_position(pos) {
                Some(parent) => after.selected_position() == Some(parent),
                None => after == before,
            },
            None => after == before,
            })
    }

    /// Moves the cursor to the parent of the node under it; stays on a
    /// commit.
    pub fn select_parent_node(&mut self)
        requires
            old(self).wf(),
        ensures
            Self::select_parent_node_result(*old(self), *final(self)),
    {
        if self.log_list.len() == 0 {
            return ;
        }
        proof {
            self.lemma_selected_visible();
        }
        match self.get_selected_tree_position() {
            Some(tree_pos) => {
                match get_parent_tree_position(&tree_pos) {
                    Some(parent_pos) => {
                        proof {
                            lemma_parent_of_node(self.jj_log@, tree_pos@);
                        }
                        self.select_position(&parent_pos);
                    },
                    None => {},
                }
            },
            None => {},
        }
    }

    /// Whether `after` is what [`Model::select_current_next_sibling_node`] makes of `before`.
    pub open spec fn select_current_next_sibling_node_result(before: Model, after: Model) -> bool {
        &&& (after.wf())
        &&& (after == (Model { log_list_state: after.log_list_state, ..before }))
        &&& (match before.selected_position() {
            Some(pos) => after.selected_position() == Some(
                next_sibling_position(before.jj_log@, pos),
            ),
            None => after == before,
            })
    }

    /// Moves the cursor to the next sibling of the node under it, or of the
    /// nearest node above it that has one; where there is none, the cursor
    /// stays.
    pub fn select_current_next_sibling_node(&mut self)
        requires
            old(self).wf(),
        ensures
            Self::select_current_next_sibling_node_result(*old(self), *final(self)),
    {
        if self.log_list.len() == 0 {
            return ;
        }
        proof {
            self.lemma_selected_visible();
        }
        match self.get_selected_tree_position() {
            Some(tree_pos) => {
                match self.jj_log.next_sibling(&tree_pos) {
                    Ok(next) => {
                        proof {
                            lemma_next_sibling(self.jj_log@, tree_pos@);
                        }
                        self.select_position(&next);
                    },
                    Err(_) => {},
                }
            },
            None => {},
        }
    }

    /// Whether `after` is what [`Model::select_current_prev_sibling_node`] makes of `before`.
    pub open spec fn select_current_prev_sibling_node_result(before: Model, after: Model) -> bool {
        &&& (after.wf())
        &&& (after == (Model { log_list_state: after.log_list_state, ..before }))
        &&& (match before.selected_position() {
            Some(pos) => after.selected_position() == Some(prev_sibling_position(pos)),
            None => after == before,
            })
    }

    /// Moves the cursor to the sibling before the node under it, or before
    /// the nearest node above it that has one; it stops at the first commit.
    pub fn select_current_prev_sibling_node(&mut self)
        requires
            old(self).wf(),
        ensures
            Self::select_current_prev_sibling_node_result(*old(self), *final(self)),
    {
        if self.log_list.len() == 0 {
            return ;
        }
        proof {
            self.lemma_selected_visible();
        }
        match self.get_selected_tree_position() {
            Some(tree_pos) => {
                match self.jj_log.prev_sibling(&tree_pos) {
                    Ok(prev) => {
                        proof {
                            lemma_prev_sibling(self.jj_log@, tree_pos@);
                        }
                        self.select_position(&prev);
                    },
                    Err(_) => {},
                }
            },
            None => {},
        }
    }

    /// Lists the log anew into the lists that are shown.
    fn sync_log_list(&mut self)
        requires
            old(self).jj_log.wf(),
        ensures
            final(self).jj_log@ == old(self).jj_log@,
            final(self).jj_log.wf(),
            final(self).jj_log.flattened(),
            blocks_view(final(self).log_list@) == flat_blocks(final(self).jj_log@),
            positions_view(final(self).log_list_tree_positions@) == flat_positions(
                final(self).jj_log@,
                Seq::empty(),
            ),
            final(self).log_list.len() == final(self).log_list_tree_positions.len(),
            *final(self) == (Model {
                jj_log: final(self).jj_log,
                log_list: final(self).log_list,
                log_list_tree_positions: final(self).log_list_tree_positions,
                ..*old(self)
            }),
    {
        let (log_list, positions) = self.jj_log.flatten_log();
        self.log_list = log_list;
        self.log_list_tree_positions = positions;
    }

    /// Whether `after` is what [`Model::toggle_current_fold`] makes of `before`.
    pub open spec fn toggle_current_fold_result(before: Model, after: Model) -> bool {
        &&& (after.log_wf())
        &&& (after == (Model {
            jj_log: after.jj_log,
            log_list: after.log_list,
            log_list_tree_positions: after.log_list_tree_positions,
            log_list_state: after.log_list_state,
            ..before
            }))
        &&& (after.log_list_state.offset == before.log_list_state.offset)
        &&& (match before.selected_position() {
            Some(pos) => {
                &&& after.jj_log@ == toggled(before.jj_log@, pos)
                &&& after.selected_position() == Some(pos)
                &&& after.log_list_state.selected == before.log_list_state.selected
            },
            None => after == before,
            })
    }

    /// Flips the fold of the node under the cursor. The cursor stays on the
    /// node.
    pub fn toggle_current_fold(&mut self)
        requires
            old(self).log_wf(),
        ensures
            Self::toggle_current_fold_result(*old(self), *final(self)),
    {
        if self.log_list.len() == 0 {
            return ;
        }
        proof {
            self.lemma_selected_visible();
        }
        match self.get_selected_tree_position() {
            Some(tree_pos) => {
                let ghost before = self.jj_log@;
                match self.jj_log.toggle_fold(&tree_pos) {
                    Ok(idx) => {
                        self.sync_log_list();
                        self.log_select(idx);
                        proof {
                            lemma_toggle_keeps(before, tree_pos@, 0);
                            lemma_flat_index(self.jj_log@, Seq::empty(), tree_pos@);
                            lemma_flat_lengths(self.jj_log@, Seq::empty());
                            assert(Seq::<usize>::empty() + tree_pos@ =~= tree_pos@);
                            assert(positions_view(self.log_list_tree_positions@)[idx as int]
                                == self.log_list_tree_positions@[idx as int]@);
                        }
                    },
                    Err(_) => {
                        assert(false);
                    },
                }
            },
            None => {},
        }
    }

    /// Forgets the saved selection, the pending keys, the queue and what was
    /// shown for it, and the message.
    pub fn clear(&mut self)
        ensures
            *final(self) == (Model {
                info_list: None,
                saved_tree_position: None,
                saved_change_id: None,
                saved_file_path: None,
                command_keys: final(self).command_keys,
                queued_jj_commands: final(self).queued_jj_commands,
                accumulated_command_output: final(self).accumulated_command_output,
                ..*old(self)
            }),
            final(self).command_keys@.len() == 0,
            final(self).queued_jj_commands@.len() == 0,
            final(self).accumulated_command_output@.len() == 0,
    {
        self.info_list = None;
        self.saved_tree_position = None;
        self.saved_change_id = None;
        self.saved_file_path = None;
        self.command_keys.clear();
        self.queued_jj_commands.clear();
        self.accumulated_command_output.clear();
    }

    /// Shows that an action was cancelled.
    pub fn cancelled(&mut self)
        ensures
            *final(self) == (Model { info_list: final(self).info_list, ..*old(self) }),
            opt_text_view(final(self).info_list) == Some(message_text("Cancelled"@)),
    {
        self.info_list = Some(Text::raw("Cancelled"));
    }

    /// Shows that the selection does not fit the command.
    pub fn invalid_selection(&mut self)
        ensures
            invalid_selection_shown(*old(self), *final(self)),
    {
        self.info_list = Some(Text::raw("Invalid selection"));
    }

    /// Whether there are pending command keys in a multi-key sequence.
    pub fn has_pending_command_keys(&self) -> (r: bool)
        ensures
            r == (self.command_keys@.len() > 0),
    {
        self.command_keys.len() > 0
    }

    /// Takes the commits that the engine gave as the log, lists them, puts
    /// the cursor on the commit of the working copy, or on the first node
    /// where there is none, and flips the fold of the node under the cursor.
    /// Commits that do not follow the four levels are refused.
    pub fn sync(&mut self, commits: Vec<LogTreeNode>) -> (r: Result<(), LogTreeError>)
        ensures
            r.is_ok() == well_formed(nodes_view(commits@), 0),
            r.is_err() ==> r == Err::<(), LogTreeError>(LogTreeError::Malformed) && *final(self) == *old(
                self,
            ),
            r.is_ok() ==> synced(*old(self), nodes_view(commits@), *final(self)),
    {
        match self.jj_log.load_log_tree(commits) {
            Err(e) => {
                return Err(e);
            },
            Ok(()) => {},
        }
        self.sync_log_list();
        let ghost loaded = self.jj_log@;
        let ghost k = working_copy_index(loaded);
        let found = match self.jj_log.get_current_commit() {
            None => None,
            Some(commit) => Some(commit.flat_log_idx),
        };
        let list_idx = match found {
            Some(idx) => idx,
            None => 0,
        };
        proof {
            lemma_flat_lengths(loaded, Seq::empty());
            lemma_working_copy_index(loaded);
            assert(loaded.len() <= usize::MAX);
            if loaded.len() > 0 {
                let pos = if k < loaded.len() {
                    seq![k as usize]
                } else {
                    seq![0usize]
                };
                lemma_place_of_visible(self.jj_log.log_tree@, 0, pos);
                lemma_flat_index(loaded, Seq::empty(), pos);
                assert(Seq::<usize>::empty() + pos =~= pos);
                assert(loaded.take(0) =~= Seq::empty());
                assert(positions_view(self.log_list_tree_positions@)[list_idx as int]
                    == self.log_list_tree_positions@[list_idx as int]@);
            } else {
                assert(flat_blocks(loaded) =~= Seq::empty());
            }
        }
        self.log_select(list_idx);
        self.toggle_current_fold();
        Ok(())
    }
}

/// What the info text shows while a queue runs: what the invocations have
/// shown so far, and the next invocation with a note that it runs.
pub open spec fn queue_info(output: Seq<Seq<SpanView>>, queue: Seq<JjCommandView>) -> Seq<
    Seq<SpanView>,
> {
    if queue.len() > 0 {
        output + seq![raw_line(command_text(queue[0].args)), raw_line("Running..."@)]
    } else {
        output
    }
}

/// Whether `after` is `before` with the given invocations queued: what
/// earlier invocations have shown is gone, and the first invocation is
/// announced.
pub open spec fn queued(before: Model, cmds: Seq<JjCommandView>, after: Model) -> bool {
    &&& after == (Model {
        queued_jj_commands: after.queued_jj_commands,
        accumulated_command_output: after.accumulated_command_output,
        info_list: after.info_list,
        ..before
    })
    &&& commands_view(after.queued_jj_commands@) == cmds
    &&& after.accumulated_command_output@.len() == 0
    &&& opt_text_view(after.info_list) == Some(queue_info(Seq::empty(), cmds))
}

/// The queue as a mathematical value: the invocations that are to run, and
/// what the invocations before them have shown.
pub struct QueueModel {
    pub queue: Seq<JjCommandView>,
    pub output: Seq<Seq<SpanView>>,
}

/// How an invocation ended, with the lines that it wrote.
#[derive(Debug)]
pub enum CommandOutcome {
    Succeeded(Vec<Line>),
    Failed(Vec<Line>),
}

/// [`CommandOutcome`] as a mathematical value.
pub enum OutcomeView {
    Succeeded(Seq<Seq<SpanView>>),
    Failed(Seq<Seq<SpanView>>),
}

impl View for CommandOutcome {
    type V = OutcomeView;

    open spec fn view(&self) -> OutcomeView {
        match self {
            CommandOutcome::Succeeded(lines) => OutcomeView::Succeeded(lines_view(lines@)),
            CommandOutcome::Failed(lines) => OutcomeView::Failed(lines_view(lines@)),
        }
    }
}

impl OutcomeView {
    pub open spec fn lines(self) -> Seq<Seq<SpanView>> {
        match self {
            OutcomeView::Succeeded(lines) => lines,
            OutcomeView::Failed(lines) => lines,
        }
    }
}

/// What the queue did with the outcome of an invocation.
#[derive(Debug, Clone, Copy, PartialEq, Eq, Structural)]
pub enum QueueStep {
    /// Nothing was queued.
    Idle,
    /// The invocation succeeded and another one is due.
    Continue,
    /// The last invocation succeeded; the log is as it was.
    Finished,
    /// The last invocation succeeded and changed the graph: the log has to
    /// be loaded anew.
    Reload,
    /// The invocation failed; what was queued behind it is dropped.
    Failed,
}

/// What the queue has shown once the first invocation ended: a blank line
/// behind what was shown before, the invocation, and what it wrote.
pub open spec fn output_after(q: QueueModel, outcome: OutcomeView) -> Seq<Seq<SpanView>> {
    (if q.output.len() > 0 {
        q.output.push(Seq::empty())
    } else {
        q.output
    }) + seq![raw_line(command_text(q.queue[0].args))] + outcome.lines()
}

/// What the queue does with the outcome of its first invocation.
pub open spec fn drain_step(q: QueueModel, outcome: OutcomeView) -> QueueStep {
    if q.queue.len() == 0 {
        QueueStep::Idle
    } else {
        match outcome {
            OutcomeView::Failed(_) => QueueStep::Failed,
            OutcomeView::Succeeded(_) => if q.queue.len() > 1 {
                QueueStep::Continue
            } else if q.queue[0].sync {
                QueueStep::Reload
            } else {
                QueueStep::Finished
            },
        }
    }
}

/// The queue after the outcome of its first invocation: on success the rest
/// of the invocations with what was shown; an empty queue once the last
/// invocation succeeded or any failed.
pub open spec fn drained(q: QueueModel, outcome: OutcomeView) -> QueueModel {
    match drain_step(q, outcome) {
        QueueStep::Idle => q,
        QueueStep::Continue => QueueModel {
            queue: q.queue.drop_first(),
            output: output_after(q, outcome),
        },
        _ => QueueModel { queue: Seq::empty(), output: Seq::empty() },
    }
}

/// What the info text shows after the outcome of the first invocation.
pub open spec fn drain_info(q: QueueModel, outcome: OutcomeView) -> Seq<Seq<SpanView>> {
    if drain_step(q, outcome) == QueueStep::Continue {
        queue_info(output_after(q, outcome), q.queue.drop_first())
    } else {
        output_after(q, outcome)
    }
}

/// The queue after the first `n` of the given outcomes.
pub open spec fn run_queue(q: QueueModel, outcomes: Seq<OutcomeView>, n: nat) -> QueueModel
    decreases n,
{
    if n == 0 {
        q
    } else {
        drained(run_queue(q, outcomes, (n - 1) as nat), outcomes[n - 1])
    }
}

/// What the first `n` invocations show in all: each invocation and what it
/// wrote, a blank line between one invocation and the next.
pub open spec fn transcript(cmds: Seq<JjCommandView>, outcomes: Seq<OutcomeView>, n: nat) -> Seq<
    Seq<SpanView>,
>
    decreases n,
{
    if n == 0 {
        Seq::empty()
    } else {
        let before = transcript(cmds, outcomes, (n - 1) as nat);
        (if before.len() > 0 {
            before.push(Seq::empty())
        } else {
            before
        }) + seq![raw_line(command_text(cmds[n - 1].args))] + outcomes[n - 1].lines()
    }
}

/// While every invocation succeeds, the queue runs them in order and shows
/// what they wrote.
pub proof fn lemma_queue_runs_in_order(cmds: Seq<JjCommandView>, outcomes: Seq<OutcomeView>, n: nat)
    requires
        n < cmds.len(),
        n <= outcomes.len(),
        forall|i: int| 0 <= i < n ==> (#[trigger] outcomes[i]) is Succeeded,
    ensures
        run_queue(QueueModel { queue: cmds, output: Seq::empty() }, outcomes, n) == (QueueModel {
            queue: cmds.skip(n as int),
            output: transcript(cmds, outcomes, n),
        }),
        forall|i: int|
            0 <= i < n ==> drain_step(
                #[trigger] run_queue(QueueModel { queue: cmds, output: Seq::empty() }, outcomes, i as nat),
                outcomes[i],
            ) == QueueStep::Continue,
    decreases n,
{
    let start = QueueModel { queue: cmds, output: Seq::empty() };
    if n == 0 {
        assert(cmds.skip(0) =~= cmds);
    } else {
        lemma_queue_runs_in_order(cmds, outcomes, (n - 1) as nat);
        let before = run_queue(start, outcomes, (n - 1) as nat);
        assert(before.queue[0] == cmds[n - 1]);
        assert(before.queue.drop_first() =~= cmds.skip(n as int));
        assert(outcomes[n - 1] is Succeeded);
    }
}

/// Where invocation `k` of a queue is the first to fail, the invocations
/// before it and invocation `k` are the ones that run, in order; what is
/// shown in the end is what they wrote, the diagnostic of invocation `k`
/// last; no step asks for the log to be loaded; and the queue is empty
/// afterwards, so that nothing behind invocation `k` ever runs.
pub proof fn lemma_queue_stops_at_failure(cmds: Seq<JjCommandView>, outcomes: Seq<OutcomeView>, k: nat)
    requires
        1 <= k <= cmds.len(),
        k <= outcomes.len(),
        forall|i: int| 0 <= i < k - 1 ==> (#[trigger] outcomes[i]) is Succeeded,
        outcomes[k - 1] is Failed,
    ensures
        ({
            let start = QueueModel { queue: cmds, output: Seq::empty() };
            let before = run_queue(start, outcomes, (k - 1) as nat);
            &&& forall|i: int|
                0 <= i < k ==> (#[trigger] run_queue(start, outcomes, i as nat)).queue == cmds.skip(i)
            &&& forall|i: int|
                0 <= i < k - 1 ==> drain_step(#[trigger] run_queue(start, outcomes, i as nat), outcomes[i])
                    == QueueStep::Continue
            &&& drain_step(before, outcomes[k - 1]) == QueueStep::Failed
            &&& drain_info(before, outcomes[k - 1]) == transcript(cmds, outcomes, k)
            &&& run_queue(start, outcomes, k).queue.len() == 0
            &&& forall|next: OutcomeView| #[trigger]
                drain_step(run_queue(start, outcomes, k), next) == QueueStep::Idle
        }),
{
    let start = QueueModel { queue: cmds, output: Seq::empty() };
    lemma_queue_runs_in_order(cmds, outcomes, (k - 1) as nat);
    assert forall|i: int| 0 <= i < k implies (#[trigger] run_queue(start, outcomes, i as nat)).queue
        == cmds.skip(i) by {
        lemma_queue_runs_in_order(cmds, outcomes, i as nat);
    }
    let before = run_queue(start, outcomes, (k - 1) as nat);
    assert(before.queue[0] == cmds[k - 1]);
}

/// Whether `after` is `before` with the commits `loaded` taken as its log:
/// the cursor stands on the commit of the working copy, or on the first node
/// where there is none, and the fold of that node is flipped.
pub open spec fn synced(before: Model, loaded: Seq<NodeView>, after: Model) -> bool {
    let k = working_copy_index(loaded);
    let pos = if k < loaded.len() {
        seq![k as usize]
    } else {
        seq![0usize]
    };
    &&& after.log_wf()
    &&& after == (Model {
        jj_log: after.jj_log,
        log_list: after.log_list,
        log_list_tree_positions: after.log_list_tree_positions,
        log_list_state: after.log_list_state,
        ..before
    })
    &&& after.log_list_state.offset == before.log_list_state.offset
    &&& loaded.len() == 0 ==> after.jj_log@ == loaded && after.log_list_state.selected == Some(
        0usize,
    )
    &&& loaded.len() > 0 ==> after.jj_log@ == toggled(loaded, pos) && after.selected_position()
        == Some(pos)
}

/// Whether `after` is `before` cleared: the saved selection, the pending
/// keys, the queue with what it has shown, and the message are gone.
pub open spec fn cleared(before: Model, after: Model) -> bool {
    &&& after == (Model {
        info_list: None,
        saved_tree_position: None,
        saved_change_id: None,
        saved_file_path: None,
        command_keys: after.command_keys,
        queued_jj_commands: after.queued_jj_commands,
        accumulated_command_output: after.accumulated_command_output,
        ..before
    })
    &&& after.command_keys@.len() == 0
    &&& after.queued_jj_commands@.len() == 0
    &&& after.accumulated_command_output@.len() == 0
}

/// Whether `after` is `before` with the selection under the cursor saved.
pub open spec fn selection_saved(before: Model, after: Model) -> bool {
    &&& before.selected_change_id().is_some()
    &&& after == (Model {
        saved_change_id: after.saved_change_id,
        saved_file_path: after.saved_file_path,
        saved_tree_position: after.saved_tree_position,
        ..before
    })
    &&& after.saved_change_id.is_some() && after.saved_change_id.unwrap()@
        == before.selected_change_id().unwrap()
    &&& after.saved_file_path.is_some() == before.selected_file_path().is_some()
    &&& after.saved_file_path.is_some() ==> after.saved_file_path.unwrap()@
        == before.selected_file_path().unwrap()
    &&& after.saved_tree_position.is_some() && after.saved_tree_position.unwrap()@
        == before.selected_position().unwrap()
}

/// A saved selection does not outlive a cancel: clearing right after the
/// first step of a two-step command leaves no part of the selection saved,
/// and no pending key.
pub proof fn lemma_cancel_forgets_saved_selection(start: Model, saved: Model, end: Model)
    requires
        selection_saved(start, saved),
        cleared(saved, end),
    ensures
        end.saved_change_id.is_none(),
        end.saved_file_path.is_none(),
        end.saved_tree_position.is_none(),
        end.command_keys@.len() == 0,
        end.jj_log == start.jj_log,
        end.log_list_state == start.log_list_state,
{
}

/// Whether `after` and the step `r` are what the outcome of the first
/// invocation makes of `before`.
pub open spec fn drained_to(
    before: Model,
    outcome: OutcomeView,
    r: Result<QueueStep, String>,
    after: Model,
) -> bool {
    &&& r == Ok::<QueueStep, String>(drain_step(before.queue_model(), outcome))
    &&& after.queue_model() == drained(before.queue_model(), outcome)
    &&& opt_text_view(after.info_list) == Some(drain_info(before.queue_model(), outcome))
    &&& r == Ok::<QueueStep, String>(QueueStep::Continue) ==> after == (Model {
        queued_jj_commands: after.queued_jj_commands,
        accumulated_command_output: after.accumulated_command_output,
        info_list: after.info_list,
        ..before
    })
    &&& r != Ok::<QueueStep, String>(QueueStep::Continue) ==> after == (Model {
        info_list: after.info_list,
        saved_tree_position: None,
        saved_change_id: None,
        saved_file_path: None,
        command_keys: after.command_keys,
        queued_jj_commands: after.queued_jj_commands,
        accumulated_command_output: after.accumulated_command_output,
        ..before
    }) && after.command_keys@.len() == 0
}

impl Model {
    /// The queue as a mathematical value.
    pub open spec fn queue_model(&self) -> QueueModel {
        QueueModel {
            queue: commands_view(self.queued_jj_commands@),
            output: lines_view(self.accumulated_command_output@),
        }
    }

    /// Whether `after` and `r` are what [`Model::handle_command_key`] makes of `before`.
    pub open spec fn handle_command_key_result(
        before: Model,
        key_code: Key,
        r: Option<Message>,
        after: Model,
    ) -> bool {
        &&& (({
            let keys = before.command_keys@.push(key_code);
            let path = codes_of(keys);
            let tree = before.command_tree@;
            &&& after == (Model {
                command_keys: after.command_keys,
                info_list: after.info_list,
                ..before
            })
            &&& !tree.contains_key(path) ==> {
                &&& r.is_none()
                &&& after.command_keys@ == Seq::<Key>::empty()
                &&& exists|label: Seq<char>|
                    names_key(label, key_code) && opt_text_view(after.info_list) == Some(
                        #[trigger] unbound_shown(opt_text_view(before.info_list), label),
                    )
            }
            &&& tree.contains_key(path) ==> {
                &&& r == tree[path].action
                &&& after.command_keys@ == (if tree[path].action.is_some()
                    && tree[path].children.is_none() {
                    Seq::empty()
                } else {
                    keys
                })
                &&& match tree[path].children {
                    Some(help) => opt_text_view(after.info_list) == Some(
                        help_text(sorted_help(help)),
                    ),
                    None => after.info_list == before.info_list,
                }
            }
            }))
    }

    /// Takes a key of a command. A key sequence that is not bound is
    /// forgotten and its last key reported; a menu shows its help; an action
    /// is returned, and ends the sequence unless there is a menu below it.
    pub fn handle_command_key(&mut self, key_code: Key) -> (r: Option<Message>)
        ensures
            Self::handle_command_key_result(*old(self), key_code, r, *final(self)),
    {
        self.command_keys.push(key_code);
        let ghost keys = self.command_keys@;
        let node = match self.command_tree.get_node(self.command_keys.as_slice()) {
            None => {
                self.command_keys.clear();
                assert(self.command_keys@ =~= Seq::<Key>::empty());
                display_unbound_error_lines(&mut self.info_list, &key_code);
                return None;
            },
            Some(node) => node,
        };
        let action = node.action;
        let leaf = node.children.is_none();
        match &node.children {
            Some(children) => {
                let help = children.get_help();
                self.info_list = Some(help);
            },
            None => {},
        }
        match action {
            Some(message) => {
                if leaf {
                    self.command_keys.clear();
                    assert(self.command_keys@ =~= Seq::empty());
                }
                Some(message)
            },
            None => None,
        }
    }

    /// Shows what the queue has shown so far and announces the next
    /// invocation.
    fn update_info_list_for_queue(&mut self)
        ensures
            *final(self) == (Model { info_list: final(self).info_list, ..*old(self) }),
            opt_text_view(final(self).info_list) == Some(
                queue_info(old(self).queue_model().output, old(self).queue_model().queue),
            ),
    {
        let mut lines = duplicate_lines(&self.accumulated_command_output);
        if self.queued_jj_commands.len() > 0 {
            let mut described = self.queued_jj_commands[0].to_lines();
            let ghost a = lines_view(lines@);
            let ghost d = lines_view(described@);
            lines.append(&mut described);
            assert(lines_view(lines@) =~= a + d);
            let ghost b = lines_view(lines@);
            lines.push(Line::raw("Running..."));
            assert(lines_view(lines@) =~= b.push(raw_line("Running..."@)));
            assert(self.queued_jj_commands@[0]@ == commands_view(self.queued_jj_commands@)[0]);
            assert(lines_view(lines@) =~= queue_info(
                self.queue_model().output,
                self.queue_model().queue,
            ));
        }
        let text = Text::from_lines(lines);
        self.info_list = Some(text);
    }

    /// Queues one invocation in place of what was queued.
    pub fn queue_jj_command(&mut self, cmd: JjCommand)
        ensures
            queued(*old(self), seq![cmd@], *final(self)),
    {
        let mut cmds: Vec<JjCommand> = Vec::new();
        cmds.push(cmd);
        assert(commands_view(cmds@) =~= seq![cmd@]);
        self.queue_jj_commands(cmds)
    }

    /// Queues invocations in place of what was queued, drops what earlier
    /// invocations have shown, and announces the first of them.
    pub fn queue_jj_commands(&mut self, cmds: Vec<JjCommand>)
        ensures
            queued(*old(self), commands_view(cmds@), *final(self)),
            final(self).queued_jj_commands == cmds,
    {
        self.accumulated_command_output.clear();
        self.queued_jj_commands = cmds;
        assert(lines_view(self.accumulated_command_output@) =~= Seq::empty());
        self.update_info_list_for_queue();
    }

    /// The invocation that is to run next.
    pub fn next_jj_command(&self) -> (r: Option<&JjCommand>)
        ensures
            r.is_some() == (self.queued_jj_commands@.len() > 0),
            r.is_some() ==> *r.unwrap() == self.queued_jj_commands@[0],
    {
        if self.queued_jj_commands.len() > 0 {
            Some(&self.queued_jj_commands[0])
        } else {
            None
        }
    }

    /// Takes the outcome of the first invocation of the queue. On success
    /// with more to run the next invocation is announced. After the last
    /// invocation, and after a failure, which drops the rest of the queue,
    /// the model is cleared and all that was shown stays as the message.
    pub fn finish_jj_command(&mut self, outcome: CommandOutcome) -> (step: QueueStep)
        ensures
            step == drain_step(old(self).queue_model(), outcome@),
            step == QueueStep::Idle ==> *final(self) == *old(self),
            step != QueueStep::Idle ==> {
                &&& final(self).queue_model() == drained(old(self).queue_model(), outcome@)
                &&& opt_text_view(final(self).info_list) == Some(
                    drain_info(old(self).queue_model(), outcome@),
                )
            },
            step == QueueStep::Continue ==> *final(self) == (Model {
                queued_jj_commands: final(self).queued_jj_commands,
                accumulated_command_output: final(self).accumulated_command_output,
                info_list: final(self).info_list,
                ..*old(self)
            }),
            step != QueueStep::Idle && step != QueueStep::Continue ==> *final(self) == (Model {
                info_list: final(self).info_list,
                saved_tree_position: None,
                saved_change_id: None,
                saved_file_path: None,
                command_keys: final(self).command_keys,
                queued_jj_commands: final(self).queued_jj_commands,
                accumulated_command_output: final(self).accumulated_command_output,
                ..*old(self)
            }) && final(self).command_keys@.len() == 0,
    {
        if self.queued_jj_commands.len() == 0 {
            return QueueStep::Idle;
        }
        let ghost q = self.queue_model();
        let cmd = self.queued_jj_commands.remove(0);
        proof {
            assert(q.queue[0] == cmd@);
            assert(commands_view(self.queued_jj_commands@) =~= q.queue.drop_first());
        }
        if self.accumulated_command_output.len() > 0 {
            let ghost a = lines_view(self.accumulated_command_output@);
            self.accumulated_command_output.push(Line::blank());
            assert(lines_view(self.accumulated_command_output@) =~= a.push(Seq::empty()));
        }
        let mut described = cmd.to_lines();
        let ghost a = lines_view(self.accumulated_command_output@);
        let ghost d = lines_view(described@);
        self.accumulated_command_output.append(&mut described);
        assert(lines_view(self.accumulated_command_output@) =~= a + d);
        let (succeeded, mut written) = match outcome {
            CommandOutcome::Succeeded(lines) => (true, lines),
            CommandOutcome::Failed(lines) => (false, lines),
        };
        let ghost b = lines_view(self.accumulated_command_output@);
        let ghost w = lines_view(written@);
        self.accumulated_command_output.append(&mut written);
        assert(lines_view(self.accumulated_command_output@) =~= b + w);
        assert(lines_view(self.accumulated_command_output@) =~= output_after(q, outcome@));
        if succeeded && self.queued_jj_commands.len() > 0 {
            self.update_info_list_for_queue();
            QueueStep::Continue
        } else {
            let final_output = duplicate_lines(&self.accumulated_command_output);
            self.clear();
            assert(commands_view(self.queued_jj_commands@) =~= Seq::empty());
            assert(lines_view(self.accumulated_command_output@) =~= Seq::empty());
            self.info_list = Some(Text::from_lines(final_output));
            if !succeeded {
                QueueStep::Failed
            } else if cmd.sync {
                QueueStep::Reload
            } else {
                QueueStep::Finished
            }
        }
    }

    /// Takes what running the first invocation of the queue gave. The text
    /// that the engine wrote goes through the ANSI parser and on to
    /// [`Model::finish_jj_command`]. An engine that could not be run, and
    /// text that the parser rejects, end the session: the error is handed
    /// back and the model stays as it is.
    pub fn process_jj_command_queue(&mut self, result: Result<String, JjCommandError>) -> (r: Result<
        QueueStep,
        String,
    >)
        ensures
            old(self).queued_jj_commands@.len() == 0 ==> r == Ok::<QueueStep, String>(QueueStep::Idle)
                && *final(self) == *old(self),
            old(self).queued_jj_commands@.len() > 0 ==> match result {
                Ok(output) => match ansi_text(output@) {
                    Some(lines) => drained_to(
                        *old(self),
                        OutcomeView::Succeeded(lines),
                        r,
                        *final(self),
                    ),
                    None => r.is_err() && *final(self) == *old(self),
                },
                Err(JjCommandError::Failed { stderr }) => match ansi_text(stderr@) {
                    Some(lines) => drained_to(*old(self), OutcomeView::Failed(lines), r, *final(self)),
                    None => r.is_err() && *final(self) == *old(self),
                },
                Err(JjCommandError::Other { err }) => r == Err::<QueueStep, String>(err) && *final(self)
                    == *old(self),
            },
    {
        if self.queued_jj_commands.len() == 0 {
            return Ok(QueueStep::Idle);
        }
        let outcome = match result {
            Ok(output) => match ansi_into_text(output.as_str()) {
                Ok(text) => CommandOutcome::Succeeded(text.lines),
                Err(err) => {
                    return Err(err);
                },
            },
            Err(JjCommandError::Failed { stderr }) => match ansi_into_text(stderr.as_str()) {
                Ok(text) => CommandOutcome::Failed(text.lines),
                Err(err) => {
                    return Err(err);
                },
            },
            Err(JjCommandError::Other { err }) => {
                return Err(err);
            },
        };
        Ok(self.finish_jj_command(outcome))
    }

    /// Whether `after` is what [`Model::save_selection`] makes of `before`.
    pub open spec fn save_selection_result(before: Model, after: Model) -> bool {
        &&& (before.selected_change_id().is_some() ==> selection_saved(before, after))
        &&& (before.selected_change_id().is_none() ==> exists|mid: Model| #[trigger]
            cleared(before, mid) && invalid_selection_shown(mid, after))
    }

    /// Saves what is under the cursor as the source of a two-step command:
    /// the change id, the file path if the cursor is in a file diff, and the
    /// position. Without a commit under the cursor the model is cleared and
    /// the selection reported as not fitting.
    pub fn save_selection(&mut self)
        ensures
            Self::save_selection_result(*old(self), *final(self)),
    {
        let change_id = match self.get_selected_change_id() {
            Some(id) => Some(id.clone()),
            None => None,
        };
        match change_id {
            None => {
                self.clear();
                let ghost mid = *self;
                self.invalid_selection();
                assert(cleared(*old(self), mid) && invalid_selection_shown(mid, *self));
            },
            Some(id) => {
                let file_path = match self.get_selected_file_path() {
                    Some(path) => Some(path.clone()),
                    None => None,
                };
                let position = self.get_selected_tree_position();
                self.saved_change_id = Some(id);
                self.saved_file_path = file_path;
                self.saved_tree_position = position;
            },
        }
    }
}

/// The place of the text cursor, kept within the text.
pub open spec fn clamped_cursor(text: Seq<char>, cursor: usize) -> int {
    if cursor > text.len() {
        text.len() as int
    } else {
        cursor as int
    }
}

impl Model {
    /// Whether `after` is what [`Model::text_input_char`] makes of `before`.
    pub open spec fn text_input_char_result(before: Model, ch: char, after: Model) -> bool {
        &&& (after == (Model {
            text_input: after.text_input,
            text_cursor: after.text_cursor,
            ..before
            }))
        &&& (after.text_input@ == before.text_input@.insert(
            clamped_cursor(before.text_input@, before.text_cursor),
            ch,
            ))
        &&& (after.text_cursor == clamped_cursor(before.text_input@, before.text_cursor) + 1)
    }

    /// Puts a character in at the text cursor and moves the cursor behind
    /// it.
    pub fn text_input_char(&mut self, ch: char)
        ensures
            Self::text_input_char_result(*old(self), ch, *final(self)),
    {
        let len = self.text_input.as_str().unicode_len();
        if self.text_cursor > len {
            self.text_cursor = len;
        }
        self.text_input = insert_char_at(self.text_input.as_str(), self.text_cursor, ch);
        let new_len = self.text_input.as_str().unicode_len();
        assert(new_len == len + 1);
        self.text_cursor = self.text_cursor + 1;
    }

    /// Whether `after` is what [`Model::text_input_backspace`] makes of `before`.
    pub open spec fn text_input_backspace_result(before: Model, after: Model) -> bool {
        &&& (after == (Model {
            text_input: after.text_input,
            text_cursor: after.text_cursor,
            ..before
            }))
        &&& (({
            let at = clamped_cursor(before.text_input@, before.text_cursor);
            if at > 0 {
                after.text_input@ == before.text_input@.remove(at - 1)
                    && after.text_cursor == at - 1
            } else {
                after == before
            }
            }))
    }

    /// Removes the character before the text cursor.
    pub fn text_input_backspace(&mut self)
        ensures
            Self::text_input_backspace_result(*old(self), *final(self)),
    {
        let len = self.text_input.as_str().unicode_len();
        let at = if self.text_cursor > len {
            len
        } else {
            self.text_cursor
        };
        if at > 0 {
            self.text_input = remove_char_at(self.text_input.as_str(), at - 1);
            self.text_cursor = at - 1;
        }
    }

    /// Whether `after` is what [`Model::text_input_delete`] makes of `before`.
    pub open spec fn text_input_delete_result(before: Model, after: Model) -> bool {
        &&& (after == (Model { text_input: after.text_input, ..before }))
        &&& (after.text_input@ == (if before.text_cursor < before.text_input@.len() {
            before.text_input@.remove(before.text_cursor as int)
            } else {
            before.text_input@
            }))
    }

    /// Removes the character at the text cursor.
    pub fn text_input_delete(&mut self)
        ensures
            Self::text_input_delete_result(*old(self), *final(self)),
    {
        let len = self.text_input.as_str().unicode_len();
        if self.text_cursor < len {
            self.text_input = remove_char_at(self.text_input.as_str(), self.text_cursor);
        }
    }

    /// Whether `after` is what [`Model::text_input_move_left`] makes of `before`.
    pub open spec fn text_input_move_left_result(before: Model, after: Model) -> bool {
        &&& (after == (Model {
            text_cursor: if before.text_cursor > 0 {
                (before.text_cursor - 1) as usize
            } else {
                0
            },
            ..before
            }))
    }

    /// Moves the text cursor one character to the left.
    pub fn text_input_move_left(&mut self)
        ensures
            Self::text_input_move_left_result(*old(self), *final(self)),
    {
        if self.text_cursor > 0 {
            self.text_cursor = self.text_cursor - 1;
        }
    }

    /// Whether `after` is what [`Model::text_input_move_right`] makes of `before`.
    pub open spec fn text_input_move_right_result(before: Model, after: Model) -> bool {
        &&& (after == (Model {
            text_cursor: if before.text_cursor < before.text_input@.len() {
                (before.text_cursor + 1) as usize
            } else {
                before.text_cursor
            },
            ..before
            }))
    }

    /// Moves the text cursor one character to the right.
    pub fn text_input_move_right(&mut self)
        ensures
            Self::text_input_move_right_result(*old(self), *final(self)),
    {
        let len = self.text_input.as_str().unicode_len();
        if self.text_cursor < len {
            self.text_cursor = self.text_cursor + 1;
        }
    }

    /// Whether `after` is what [`Model::text_input_move_home`] makes of `before`.
    pub open spec fn text_input_move_home_result(before: Model, after: Model) -> bool {
        &&& (after == (Model { text_cursor: 0, ..before }))
    }

    /// Moves the text cursor to the start.
    pub fn text_input_move_home(&mut self)
        ensures
            Self::text_input_move_home_result(*old(self), *final(self)),
    {
        self.text_cursor = 0;
    }

    /// Whether `after` is what [`Model::text_input_move_end`] makes of `before`.
    pub open spec fn text_input_move_end_result(before: Model, after: Model) -> bool {
        &&& (after == (Model {
            text_cursor: before.text_input@.len() as usize,
            ..before
            }))
    }

    /// Moves the text cursor to the end.
    pub fn text_input_move_end(&mut self)
        ensures
            Self::text_input_move_end_result(*old(self), *final(self)),
    {
        self.text_cursor = self.text_input.as_str().unicode_len();
    }

    /// Ends the text input without any effect but an empty buffer.
    pub fn text_input_cancel(&mut self)
        ensures
            *final(self) == (Model {
                text_input_location: TextInputLocation::Inactive,
                text_input: final(self).text_input,
                text_cursor: 0,
                ..*old(self)
            }),
            final(self).text_input@.len() == 0,
    {
        self.text_input_location = TextInputLocation::Inactive;
        self.text_input = String::new();
        self.text_cursor = 0;
    }

    /// Ends the editing of a bookmark name.
    pub fn bookmark_edit_cancel(&mut self)
        ensures
            *final(self) == (Model {
                text_input_location: TextInputLocation::Inactive,
                text_input: final(self).text_input,
                text_cursor: 0,
                ..*old(self)
            }),
            final(self).text_input@.len() == 0,
    {
        self.text_input_cancel();
    }

    /// Whether `after` is what [`Model::set_revset`] makes of `before`.
    pub open spec fn set_revset_result(before: Model, after: Model) -> bool {
        &&& (after == (Model {
            text_input_location: after.text_input_location,
            text_input: after.text_input,
            text_cursor: before.revset@.len() as usize,
            ..before
            }))
        &&& (after.text_input@ == before.revset@)
        &&& (after.text_input_location matches TextInputLocation::Revset { original }
            && original@ == before.revset@)
    }

    /// Starts the editing of the revset, with the revset as the text.
    pub fn set_revset(&mut self)
        ensures
            Self::set_revset_result(*old(self), *final(self)),
    {
        self.text_input_location = TextInputLocation::Revset { original: self.revset.clone() };
        self.text_input = self.revset.clone();
        self.text_cursor = self.text_input.as_str().unicode_len();
    }

    /// Opens a popup with an empty filter, the first item highlighted.
    pub fn open_popup(&mut self, popup: Popup)
        ensures
            *final(self) == (Model {
                current_popup: Some(popup),
                popup_filter: final(self).popup_filter,
                popup_selection: 0,
                ..*old(self)
            }),
            final(self).popup_filter@.len() == 0,
    {
        self.current_popup = Some(popup);
        self.popup_filter = String::new();
        self.popup_selection = 0;
    }

    /// Closes the popup.
    pub fn popup_cancel(&mut self)
        ensures
            *final(self) == (Model {
                current_popup: None,
                popup_filter: final(self).popup_filter,
                popup_selection: 0,
                ..*old(self)
            }),
            final(self).popup_filter@.len() == 0,
    {
        self.current_popup = None;
        self.popup_filter = String::new();
        self.popup_selection = 0;
    }

    /// Whether `after` is what [`Model::popup_filter_char`] makes of `before`.
    pub open spec fn popup_filter_char_result(before: Model, ch: char, after: Model) -> bool {
        &&& (after == (Model {
            popup_filter: after.popup_filter,
            popup_selection: 0,
            ..before
            }))
        &&& (after.popup_filter@ == before.popup_filter@.push(ch))
    }

    /// Adds a character to the filter of the popup; the first item that
    /// passes is highlighted.
    pub fn popup_filter_char(&mut self, ch: char)
        ensures
            Self::popup_filter_char_result(*old(self), ch, *final(self)),
    {
        crate::strings::push_char(&mut self.popup_filter, ch);
        self.popup_selection = 0;
    }

    /// Whether `after` is what [`Model::popup_filter_backspace`] makes of `before`.
    pub open spec fn popup_filter_backspace_result(before: Model, after: Model) -> bool {
        &&& (after == (Model {
            popup_filter: after.popup_filter,
            popup_selection: 0,
            ..before
            }))
        &&& (after.popup_filter@ == (if before.popup_filter@.len() > 0 {
            before.popup_filter@.drop_last()
            } else {
            before.popup_filter@
            }))
    }

    /// Removes the last character of the filter of the popup; the first item
    /// that passes is highlighted.
    pub fn popup_filter_backspace(&mut self)
        ensures
            Self::popup_filter_backspace_result(*old(self), *final(self)),
    {
        let len = self.popup_filter.as_str().unicode_len();
        if len > 0 {
            let ghost before = self.popup_filter@;
            self.popup_filter = remove_char_at(self.popup_filter.as_str(), len - 1);
            assert(self.popup_filter@ =~= before.drop_last());
        }
        self.popup_selection = 0;
    }

    /// The items of the popup that pass the filter.
    pub open spec fn popup_items(&self) -> Seq<Seq<char>> {
        match self.current_popup {
            Some(popup) => filtered(strings_view(popup.spec_items()@), self.popup_filter@),
            None => Seq::empty(),
        }
    }

    /// Whether `after` is what [`Model::popup_next`] makes of `before`.
    pub open spec fn popup_next_result(before: Model, after: Model) -> bool {
        &&& (after == (Model {
            popup_selection: if before.popup_selection + 1 < before.popup_items().len() {
                (before.popup_selection + 1) as usize
            } else {
                before.popup_selection
            },
            ..before
            }))
    }

    /// Highlights the next item of the popup, if there is one.
    pub fn popup_next(&mut self)
        ensures
            Self::popup_next_result(*old(self), *final(self)),
    {
        let count = match &self.current_popup {
            Some(popup) => {
                let items = filter_items(popup.items(), self.popup_filter.as_str());
                items.len()
            },
            None => 0,
        };
        if self.popup_selection < count && self.popup_selection + 1 < count {
            self.popup_selection = self.popup_selection + 1;
        }
    }

    /// Whether `after` is what [`Model::popup_prev`] makes of `before`.
    pub open spec fn popup_prev_result(before: Model, after: Model) -> bool {
        &&& (after == (Model {
            popup_selection: if before.popup_selection > 0 {
                (before.popup_selection - 1) as usize
            } else {
                0
            },
            ..before
            }))
    }

    /// Highlights the item before, if there is one.
    pub fn popup_prev(&mut self)
        ensures
            Self::popup_prev_result(*old(self), *final(self)),
    {
        if self.popup_selection > 0 {
            self.popup_selection = self.popup_selection - 1;
        }
    }

    /// The highlighted item of the popup.
    pub fn get_popup_selection(&self) -> (r: Option<String>)
        ensures
            r.is_some() == (self.popup_selection < self.popup_items().len()),
            r.is_some() ==> r.unwrap()@ == self.popup_items()[self.popup_selection as int],
    {
        match &self.current_popup {
            Some(popup) => {
                let items = filter_items(popup.items(), self.popup_filter.as_str());
                if self.popup_selection < items.len() {
                    assert(items@[self.popup_selection as int]@ == strings_view(
                        items@,
                    )[self.popup_selection as int]);
                    Some(items[self.popup_selection].clone())
                } else {
                    None
                }
            },
            None => None,
        }
    }
}

} // verus!
