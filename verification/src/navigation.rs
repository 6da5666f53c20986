//! Scrolling by screen lines, mouse clicks, and the commands of the model
//! that load the log or open the editor.

use vstd::prelude::*;
use vstd::string::*;
use crate::command_tree::{
    general_rows, group_insert, help_view, leaf_model, navigation_rows, registered_rows,
    CommandTree,
};
use crate::keymap::default_rows;
use crate::commands::joined;
use crate::dialogs::{shown_message, EditorRequest, Effect};
use crate::help::{help_text, sorted_help};
use crate::log_tree::{
    blocks_view, node_at, nodes_view, toggled, well_formed, working_copy_index, JjLog, KindView,
    LogTreeError, LogTreeNode, NodeView, DIFF_HUNK_LINE_IDX,
};
use crate::model::{
    cleared, invalid_selection_shown, message_text, synced, ListState, Model, Rect, State,
};
use crate::shell_out::GlobalArgs;
use crate::strings::{
    chars_start_with, count_chars, count_of, from_chars, push_char, starts_with, to_chars,
};
use crate::text::{opt_text_view, text_plain, SpanView, Text};
use crate::update::{TextInputLocation, TextPromptAction};

verus! {

broadcast use vstd::string::group_string_axioms;

/// The way in which the log list is scrolled.
#[derive(Debug, Clone, Copy, PartialEq, Eq, Structural)]
pub enum ScrollDirection {
    Up,
    Down,
}

/// The time between two clicks on one cell, in milliseconds, below which
/// they count as a double click.
pub const DOUBLE_CLICK_THRESHOLD: u64 = 300;

/// The node that lies `dist` screen lines below the top of node `at`: the
/// first node from `at` on whose lines reach beyond the distance. The last
/// node is the end.
pub open spec fn dest_down(blocks: Seq<Seq<Seq<SpanView>>>, at: int, dist: int) -> int
    decreases blocks.len() - at,
{
    if at < 0 || at >= blocks.len() - 1 || blocks[at].len() > dist {
        at
    } else {
        dest_down(blocks, at + 1, dist - blocks[at].len())
    }
}

/// The node that lies `dist` screen lines above the bottom of node `at`.
/// The first node is the end.
pub open spec fn dest_up(blocks: Seq<Seq<Seq<SpanView>>>, at: int, dist: int) -> int
    decreases at,
{
    if at <= 0 || at >= blocks.len() || blocks[at].len() > dist {
        at
    } else {
        dest_up(blocks, at - 1, dist - blocks[at].len())
    }
}

/// The node that lies `dist` screen lines from node `at`.
pub open spec fn line_dest(
    blocks: Seq<Seq<Seq<SpanView>>>,
    dist: int,
    at: int,
    direction: ScrollDirection,
) -> int {
    match direction {
        ScrollDirection::Down => dest_down(blocks, at, dist),
        ScrollDirection::Up => dest_up(blocks, at, dist),
    }
}

pub proof fn lemma_dest_down(blocks: Seq<Seq<Seq<SpanView>>>, at: int, dist: int)
    requires
        0 <= at < blocks.len(),
    ensures
        at <= dest_down(blocks, at, dist) < blocks.len(),
    decreases blocks.len() - at,
{
    if !(at >= blocks.len() - 1 || blocks[at].len() > dist) {
        lemma_dest_down(blocks, at + 1, dist - blocks[at].len());
    }
}

pub proof fn lemma_dest_up(blocks: Seq<Seq<Seq<SpanView>>>, at: int, dist: int)
    requires
        0 <= at < blocks.len(),
    ensures
        0 <= dest_up(blocks, at, dist) <= at,
    decreases at,
{
    if !(at <= 0 || blocks[at].len() > dist) {
        lemma_dest_up(blocks, at - 1, dist - blocks[at].len());
    }
}

/// `index`, or the last index of a list of `len` where it lies beyond; 0
/// for the empty list.
pub open spec fn clamped(index: int, len: int) -> int {
    if len == 0 {
        0
    } else if index >= len {
        len - 1
    } else {
        index
    }
}

pub open spec fn saturating_sub(a: int, b: int) -> int {
    if a >= b {
        a - b
    } else {
        0
    }
}

pub open spec fn saturating_add(a: int, b: int) -> int {
    if a + b > usize::MAX {
        usize::MAX as int
    } else {
        a + b
    }
}

fn add_saturating(a: usize, b: usize) -> (r: usize)
    ensures
        r == saturating_add(a as int, b as int),
{
    if a > usize::MAX - b {
        usize::MAX
    } else {
        a + b
    }
}

fn sub_saturating(a: usize, b: usize) -> (r: usize)
    ensures
        r == saturating_sub(a as int, b as int),
{
    if a >= b {
        a - b
    } else {
        0
    }
}

/// The decimal digits of a number.
pub open spec fn decimal_text(n: nat) -> Seq<char>
    decreases n,
{
    if n < 10 {
        seq![(('0' as u8) + n as u8) as char]
    } else {
        decimal_text(n / 10).push((('0' as u8) + (n % 10) as u8) as char)
    }
}

/// Writes a number in decimal digits.
pub fn decimal(n: u32) -> (r: String)
    ensures
        r@ == decimal_text(n as nat),
    decreases n,
{
    if n < 10 {
        let mut r = String::new();
        push_char(&mut r, (('0' as u8) + n as u8) as char);
        assert(r@ =~= decimal_text(n as nat));
        r
    } else {
        let mut r = decimal(n / 10);
        push_char(&mut r, (('0' as u8) + (n % 10) as u8) as char);
        r
    }
}

/// The repository as it is shown: with `~` for the home directory at its
/// start.
pub open spec fn display_repository(repository: Seq<char>, home: Option<Seq<char>>) -> Seq<char> {
    match home {
        None => repository,
        Some(h) => if repository == h {
            "~"@
        } else if starts_with(repository, h + "/"@) {
            "~/"@ + repository.skip(h.len() as int + 1)
        } else {
            repository
        },
    }
}

/// How the repository is shown, given the home directory of the user.
pub fn format_repository_for_display(repository: &str, home: Option<&str>) -> (r: String)
    ensures
        r@ == display_repository(
            repository@,
            match home {
                Some(h) => Some(h@),
                None => None,
            },
        ),
{
    let home_dir = match home {
        Some(h) => h,
        None => {
            return String::from_str(repository);
        },
    };
    if crate::strings::str_eq(repository, home_dir) {
        return String::from_str("~");
    }
    let mut prefix = String::from_str(home_dir);
    prefix.append("/");
    let repo_chars = to_chars(repository);
    let prefix_chars = to_chars(prefix.as_str());
    proof {
        reveal_strlit("/");
        assert("/"@.len() == 1);
    }
    if chars_start_with(&repo_chars, &prefix_chars) {
        let rest = crate::strings::slice_chars(&repo_chars, prefix_chars.len(), repo_chars.len());
        let mut r = String::from_str("~/");
        r.append(from_chars(&rest).as_str());
        assert(repository@.skip(home_dir@.len() as int + 1) =~= repository@.subrange(
            prefix_chars.len() as int,
            repo_chars.len() as int,
        ));
        r
    } else {
        String::from_str(repository)
    }
}

/// How many dots follow "Refreshed": three more than the message shows that
/// says so already, none after any other message.
pub open spec fn refresh_periods(info: Option<Seq<Seq<SpanView>>>) -> int {
    match info {
        Some(text) => if starts_with(text_plain(text), "Refreshed"@) {
            saturating_add(count_of(text_plain(text), '.') as int, 3)
        } else {
            0
        },
        None => 0,
    }
}

/// The message that the log was loaded anew.
pub open spec fn refreshed_message(periods: int) -> Seq<char> {
    "Refreshed"@ + Seq::new(periods as nat, |i: int| '.')
}

impl Model {
    /// The node that is `line_dist` lines away from `starting_node`. Since
    /// some nodes take several lines, the nodes are walked one by one.
    pub fn line_dist_to_dest_node(
        &self,
        line_dist: usize,
        starting_node: usize,
        direction: ScrollDirection,
    ) -> (r: usize)
        ensures
            r == line_dest(
                blocks_view(self.log_list@),
                line_dist as int,
                starting_node as int,
                direction,
            ),
            starting_node < self.log_list.len() ==> r < self.log_list.len(),
    {
        let ghost blocks = blocks_view(self.log_list@);
        let mut current_node = starting_node;
        let mut remaining = line_dist;
        proof {
            if starting_node < self.log_list.len() {
                lemma_dest_down(blocks, starting_node as int, line_dist as int);
                lemma_dest_up(blocks, starting_node as int, line_dist as int);
            }
        }
        loop
            invariant
                blocks == blocks_view(self.log_list@),
                starting_node < self.log_list.len() ==> current_node < self.log_list.len(),
                line_dest(blocks, line_dist as int, starting_node as int, direction) == line_dest(
                    blocks,
                    remaining as int,
                    current_node as int,
                    direction,
                ),
            decreases
                    match direction {
                        ScrollDirection::Down => self.log_list.len() - current_node,
                        ScrollDirection::Up => current_node as int,
                    },
        {
            if current_node >= self.log_list.len() {
                return current_node;
            }
            let lines_in_node = self.log_list[current_node].height();
            assert(blocks[current_node as int] == self.log_list@[current_node as int]@);
            let at_end = match direction {
                ScrollDirection::Down => current_node == self.log_list.len() - 1,
                ScrollDirection::Up => current_node == 0,
            };
            if at_end || lines_in_node > remaining {
                return current_node;
            }
            remaining = remaining - lines_in_node;
            match direction {
                ScrollDirection::Down => {
                    current_node = current_node + 1;
                },
                ScrollDirection::Up => {
                    current_node = current_node - 1;
                },
            }
        }
    }

    /// Whether `after` is what [`Model::scroll_down_once`] makes of `before`.
    pub open spec fn scroll_down_once_result(before: Model, after: Model) -> bool {
        &&& (after.wf())
        &&& (after == (Model { log_list_state: after.log_list_state, ..before }))
        &&& (after.log_list_state.offset == saturating_add(before.log_list_state.offset as int, 1))
        &&& (({
            let s = before.log_list_state.selected.unwrap();
            after.log_list_state.selected == Some(
                if s <= saturating_add(
                    before.log_list_state.offset as int,
                    before.log_list_scroll_padding as int,
                ) && s + 1 < before.log_list.len() {
                    (s + 1) as usize
                } else {
                    s
                },
            )
            }))
    }

    /// Scrolls the list down by one node; the cursor goes along where it
    /// would leave the screen at the top.
    pub fn scroll_down_once(&mut self)
        requires
            old(self).wf(),
        ensures
            Self::scroll_down_once_result(*old(self), *final(self)),
    {
        if self.log_selected() <= add_saturating(self.log_offset(), self.log_list_scroll_padding) {
            self.select_next_node();
        }
        self.log_list_state.offset = add_saturating(self.log_offset(), 1);
    }

    /// Whether `after` is what [`Model::scroll_up_once`] makes of `before`.
    pub open spec fn scroll_up_once_result(before: Model, after: Model) -> bool {
        &&& (after.wf())
        &&& (after == (Model { log_list_state: after.log_list_state, ..before }))
        &&& (before.log_list_state.offset == 0 ==> after == before)
        &&& (before.log_list_state.offset > 0 ==> {
            let s = before.log_list_state.selected.unwrap();
            let last_visible = dest_down(
                blocks_view(before.log_list@),
                before.log_list_state.offset as int,
                saturating_sub(before.log_list_layout.height as int, 1),
            );
            &&& after.log_list_state.offset == before.log_list_state.offset - 1
            &&& after.log_list_state.selected == Some(
                if s >= saturating_sub(
                    saturating_sub(last_visible, 1),
                    before.log_list_scroll_padding as int,
                ) && s > 0 {
                    (s - 1) as usize
                } else {
                    s
                },
            )
            })
    }

    /// Scrolls the list up by one node; the cursor goes along where it would
    /// leave the screen at the bottom.
    pub fn scroll_up_once(&mut self)
        requires
            old(self).wf(),
        ensures
            Self::scroll_up_once_result(*old(self), *final(self)),
    {
        if self.log_offset() == 0 {
            return ;
        }
        let height = self.log_list_layout.height as usize;
        let last_node_visible = self.line_dist_to_dest_node(
            sub_saturating(height, 1),
            self.log_offset(),
            ScrollDirection::Down,
        );
        if self.log_selected() >= sub_saturating(
            sub_saturating(last_node_visible, 1),
            self.log_list_scroll_padding,
        ) {
            self.select_prev_node();
        }
        self.log_list_state.offset = self.log_offset() - 1;
    }

    /// Where scrolling by `num_lines` screen lines puts the top of the list
    /// and the cursor: the cursor keeps its distance from the top, stays
    /// within the list, and goes to the end of the list with the top.
    pub open spec fn scrolled(&self, num_lines: int, direction: ScrollDirection) -> ListState {
        let len = self.log_list@.len() as int;
        let offset = self.log_list_state.offset as int;
        let selected = self.log_list_state.selected.unwrap() as int;
        let dist = saturating_sub(selected, offset);
        let target = line_dest(blocks_view(self.log_list@), num_lines, offset, direction);
        let moved = saturating_add(target, dist);
        if direction == ScrollDirection::Down && target == len - 1 {
            ListState { offset: offset as usize, selected: Some(clamped(target, len) as usize) }
        } else if direction == ScrollDirection::Up && target == 0 && offset == 0 {
            ListState { offset: 0, selected: Some(0) }
        } else {
            ListState { offset: target as usize, selected: Some(clamped(moved, len) as usize) }
        }
    }

    fn scroll_lines(&mut self, num_lines: usize, direction: ScrollDirection)
        requires
            old(self).wf(),
        ensures
            final(self).wf(),
            *final(self) == (Model { log_list_state: final(self).log_list_state, ..*old(self) }),
            old(self).log_list.len() == 0 ==> *final(self) == *old(self),
            old(self).log_list.len() > 0 ==> final(self).log_list_state == old(self).scrolled(
                num_lines as int,
                direction,
            ),
    {
        let len = self.log_list.len();
        if len == 0 {
            return ;
        }
        let selected_node_dist_from_offset = sub_saturating(self.log_selected(), self.log_offset());
        let mut target_offset = self.line_dist_to_dest_node(num_lines, self.log_offset(), direction);
        let mut target_node = add_saturating(target_offset, selected_node_dist_from_offset);
        match direction {
            ScrollDirection::Down => {
                if target_offset == len - 1 {
                    target_node = target_offset;
                    target_offset = self.log_offset();
                }
            },
            ScrollDirection::Up => {
                if target_offset == 0 && target_offset == self.log_offset() {
                    target_node = 0;
                }
            },
        }
        if target_node >= len {
            target_node = len - 1;
        }
        self.log_list_state.selected = Some(target_node);
        self.log_list_state.offset = target_offset;
    }

    /// Whether `after` is what [`Model::scroll_down_page`] makes of `before`.
    pub open spec fn scroll_down_page_result(before: Model, after: Model) -> bool {
        &&& (after.wf())
        &&& (after == (Model { log_list_state: after.log_list_state, ..before }))
        &&& (before.log_list.len() == 0 ==> after == before)
        &&& (before.log_list.len() > 0 ==> after.log_list_state == before.scrolled(
            before.log_list_layout.height as int,
            ScrollDirection::Down,
            ))
    }

    /// Scrolls the list down by a screenful of lines.
    pub fn scroll_down_page(&mut self)
        requires
            old(self).wf(),
        ensures
            Self::scroll_down_page_result(*old(self), *final(self)),
    {
        let height = self.log_list_layout.height as usize;
        self.scroll_lines(height, ScrollDirection::Down);
    }

    /// Whether `after` is what [`Model::scroll_up_page`] makes of `before`.
    pub open spec fn scroll_up_page_result(before: Model, after: Model) -> bool {
        &&& (after.wf())
        &&& (after == (Model { log_list_state: after.log_list_state, ..before }))
        &&& (before.log_list.len() == 0 ==> after == before)
        &&& (before.log_list.len() > 0 ==> after.log_list_state == before.scrolled(
            before.log_list_layout.height as int,
            ScrollDirection::Up,
            ))
    }

    /// Scrolls the list up by a screenful of lines.
    pub fn scroll_up_page(&mut self)
        requires
            old(self).wf(),
        ensures
            Self::scroll_up_page_result(*old(self), *final(self)),
    {
        let height = self.log_list_layout.height as usize;
        self.scroll_lines(height, ScrollDirection::Up);
    }

    /// Whether a click on a cell at a time is the second click of a double
    /// click.
    pub open spec fn is_double_click(&self, row: u16, column: u16, now: u64) -> bool {
        &&& self.last_click_time.is_some()
        &&& saturating_sub(now as int, self.last_click_time.unwrap() as int) < DOUBLE_CLICK_THRESHOLD
        &&& self.last_click_pos == Some((row, column))
    }

    /// Whether a cell lies in the log list.
    pub open spec fn in_log_list(&self, row: u16, column: u16) -> bool {
        let area = self.log_list_layout;
        area.y <= row && row < area.y + area.height && area.x <= column && column < area.x
            + area.width
    }

    /// What pressing Enter on the node under the cursor opens in the
    /// editor: the file that the cursor is in, at the line where the cursor
    /// is on a line that has a number. Nothing on a commit, and nothing
    /// without a file or a commit under the cursor.
    pub open spec fn editor_target(&self) -> Option<(Seq<char>, Seq<char>, Seq<char>)> {
        match self.selected_position() {
            Some(pos) => if pos.len() <= 1 {
                None
            } else {
                match (self.file_path_at(pos), self.change_id_at(pos)) {
                    (Some(path), Some(id)) => {
                        let line = if pos.len() == DIFF_HUNK_LINE_IDX + 1 {
                            match node_at(self.jj_log@, pos) {
                                Some(n) => match n.kind {
                                    KindView::DiffHunkLine { line_number } => line_number,
                                    _ => None,
                                },
                                None => None,
                            }
                        } else {
                            None
                        };
                        Some(
                            (
                                id,
                                path,
                                match line {
                                    Some(n) => path + ":"@ + decimal_text(n as nat),
                                    None => path,
                                },
                            ),
                        )
                    },
                    _ => None,
                }
            },
            None => None,
        }
    }

    /// Whether `after` and `effect` are what [`Model::enter_pressed`] makes of `before`.
    pub open spec fn enter_pressed_result(before: Model, effect: Effect, after: Model) -> bool {
        &&& (match before.selected_position() {
            Some(pos) => if pos.len() == 1 {
                effect is Nothing && crate::commands::queued_or_invalid(
                    before,
                    before.edit_command(),
                    after,
                )
            } else {
                match before.editor_target() {
                    Some((id, path, arg)) => {
                        &&& after == before
                        &&& effect matches Effect::OpenEditor(request)
                        &&& request.change_id@ == id
                        &&& request.file_path@ == path
                        &&& request.file_arg@ == arg
                        &&& request.working_copy == (id == "@"@ || before.cursor_in_working_copy())
                    },
                    None => effect is Nothing && invalid_selection_shown(before, after),
                }
            },
            None => effect is Nothing && invalid_selection_shown(before, after),
            })
    }

    /// Enter on a commit makes the commit the working copy. Enter on a
    /// file, a hunk or a line asks for the file to be opened in the editor.
    pub fn enter_pressed(&mut self) -> (effect: Effect)
        ensures
            Self::enter_pressed_result(*old(self), effect, *final(self)),
    {
        let tree_pos = match self.get_selected_tree_position() {
            Some(pos) => pos,
            None => {
                self.invalid_selection();
                return Effect::Nothing;
            },
        };
        if tree_pos.len() == 1 {
            self.jj_edit();
            return Effect::Nothing;
        }
        let line_num = if tree_pos.len() == DIFF_HUNK_LINE_IDX + 1 {
            match self.jj_log.get_tree_node(&tree_pos) {
                Ok(node) => node.line_number(),
                Err(_) => None,
            }
        } else {
            None
        };
        let file_path = match self.selected_file_path_owned() {
            Some(path) => path,
            None => {
                self.invalid_selection();
                return Effect::Nothing;
            },
        };
        let change_id = match self.selected_change_id_owned() {
            Some(id) => id,
            None => {
                self.invalid_selection();
                return Effect::Nothing;
            },
        };
        let file_arg = match line_num {
            Some(num) => joined(file_path.as_str(), ":", decimal(num).as_str()),
            None => file_path.clone(),
        };
        let working_copy = crate::strings::str_eq(change_id.as_str(), "@")
            || self.is_selected_working_copy();
        Effect::OpenEditor(EditorRequest { change_id, file_path, file_arg, working_copy })
    }

    /// Whether `after` and `effect` are what [`Model::handle_mouse_click`] makes of `before`.
    pub open spec fn handle_mouse_click_result(
        before: Model,
        row: u16,
        column: u16,
        now: u64,
        effect: Effect,
        after: Model,
    ) -> bool {
        &&& (after.wf())
        &&& (after.last_click_time == Some(now))
        &&& (after.last_click_pos == Some((row, column)))
        &&& (!before.is_double_click(row, column, now) ==> {
            &&& effect is Nothing
            &&& after == (Model {
                last_click_time: Some(now),
                last_click_pos: Some((row, column)),
                log_list_state: after.log_list_state,
                ..before
            })
            &&& after.log_list_state.offset == before.log_list_state.offset
            &&& after.log_list_state.selected == (if before.in_log_list(row, column)
                && before.log_list.len() > 0 {
                Some(
                    clamped(
                        dest_down(
                            blocks_view(before.log_list@),
                            before.log_list_state.offset as int,
                            row - before.log_list_layout.y,
                        ),
                        before.log_list.len() as int,
                    ) as usize,
                )
            } else {
                before.log_list_state.selected
            })
            })
        &&& (before.is_double_click(row, column, now) ==> Self::enter_pressed_result(
            Model { last_click_time: Some(now), last_click_pos: Some((row, column)), ..before },
            effect,
            after,
            ))
    }

    /// A click of the mouse at a time, in milliseconds of any clock that
    /// does not run backwards. The second click of a double click counts as
    /// Enter. Any other click in the log list puts the cursor on the node
    /// that is shown on the clicked row.
    pub fn handle_mouse_click(&mut self, row: u16, column: u16, now: u64) -> (effect: Effect)
        requires
            old(self).wf(),
        ensures
            Self::handle_mouse_click_result(*old(self), row, column, now, effect, *final(self)),
    {
        let is_double_click = match self.last_click_time {
            Some(last_time) => {
                let elapsed = if now >= last_time {
                    now - last_time
                } else {
                    0
                };
                let pos_matches = match self.last_click_pos {
                    Some((r, c)) => r == row && c == column,
                    None => false,
                };
                elapsed < DOUBLE_CLICK_THRESHOLD && pos_matches
            },
            None => false,
        };
        self.last_click_time = Some(now);
        self.last_click_pos = Some((row, column));
        if is_double_click {
            return self.enter_pressed();
        }
        let area = self.log_list_layout;
        let bottom = area.y as u32 + area.height as u32;
        let right = area.x as u32 + area.width as u32;
        if row < area.y || row as u32 >= bottom || column < area.x || column as u32 >= right {
            return Effect::Nothing;
        }
        if self.log_list.len() == 0 {
            return Effect::Nothing;
        }
        let mut target_node = self.line_dist_to_dest_node(
            (row - area.y) as usize,
            self.log_offset(),
            ScrollDirection::Down,
        );
        if target_node >= self.log_list.len() {
            target_node = self.log_list.len() - 1;
        }
        self.log_list_state.selected = Some(target_node);
        Effect::Nothing
    }

    /// Whether `after` is what [`Model::show_help`] makes of `before`.
    pub open spec fn show_help_result(before: Model, after: Model) -> bool {
        &&& (after == (Model { info_list: after.info_list, ..before }))
        &&& (opt_text_view(after.info_list) == Some(
            help_text(
                group_insert(
                    group_insert(
                        sorted_help(help_view(before.command_tree.0.children.unwrap().help)),
                        "Navigation"@,
                        navigation_rows(),
                    ),
                    "General"@,
                    general_rows(),
                ),
            ),
            ))
    }

    /// Shows the help of the whole key table.
    pub fn show_help(&mut self)
        requires
            old(self).command_tree.0.children.is_some(),
        ensures
            Self::show_help_result(*old(self), *final(self)),
    {
        let help = self.command_tree.get_help();
        self.info_list = Some(help);
    }

    /// Asks for the path of a new workspace. The text starts as the
    /// directory that holds the repository, which the caller names.
    pub fn workspace_add_start(&mut self, parent_path: &str)
        ensures
            *final(self) == (Model {
                text_input: final(self).text_input,
                text_cursor: parent_path@.len() as usize,
                text_input_location: final(self).text_input_location,
                ..*old(self)
            }),
            final(self).text_input@ == parent_path@,
            final(self).text_input_location matches TextInputLocation::Popup {
                prompt,
                placeholder,
                action: TextPromptAction::WorkspaceAdd,
            } && prompt@ == "Enter Workspace Path"@ && placeholder@ == "/path/to/new-workspace"@,
    {
        self.text_cursor = parent_path.unicode_len();
        self.text_input = String::from_str(parent_path);
        self.text_input_location = TextInputLocation::Popup {
            prompt: "Enter Workspace Path",
            placeholder: "/path/to/new-workspace",
            action: TextPromptAction::WorkspaceAdd,
        };
    }

    /// Takes the log that was loaded anew: the model is cleared, the log
    /// taken as by [`Model::sync`], and the message says that this was done,
    /// with three dots more each time it is done in a row.
    pub fn refresh(&mut self, commits: Vec<LogTreeNode>) -> (r: Result<(), LogTreeError>)
        ensures
            r.is_ok() == well_formed(nodes_view(commits@), 0),
            r.is_err() ==> r == Err::<(), LogTreeError>(LogTreeError::Malformed) && cleared(
                *old(self),
                *final(self),
            ),
            r.is_ok() ==> Self::refreshed(*old(self), nodes_view(commits@), *final(self)),
    {
        let ghost before = *self;
        let periods = match &self.info_list {
            Some(text) => {
                let plain = to_chars(text.plain().as_str());
                let marker = to_chars("Refreshed");
                if chars_start_with(&plain, &marker) {
                    add_saturating(count_chars(&plain, '.'), 3)
                } else {
                    0
                }
            },
            None => 0,
        };
        self.clear();
        let ghost emptied = *self;
        assert(cleared(before, emptied));
        match self.sync(commits) {
            Err(e) => {
                return Err(e);
            },
            Ok(()) => {},
        }
        let ghost taken = *self;
        let mut message = String::from_str("Refreshed");
        let mut i: usize = 0;
        assert(message@ =~= refreshed_message(0));
        while i < periods
            invariant
                i <= periods,
                message@ == refreshed_message(i as int),
            decreases periods - i,
        {
            push_char(&mut message, '.');
            assert(message@ =~= refreshed_message(i + 1));
            i = i + 1;
        }
        self.info_list = Some(Text::raw(message.as_str()));
        assert(cleared(before, emptied) && synced(emptied, nodes_view(commits@), taken));
        Ok(())
    }

    /// Whether `after` is `before` refreshed with the commits `loaded`:
    /// cleared, then the log taken, then the message set.
    pub open spec fn refreshed(before: Model, loaded: Seq<NodeView>, after: Model) -> bool {
        exists|emptied: Model, taken: Model|
            {
                &&& #[trigger] cleared(before, emptied)
                &&& #[trigger] synced(emptied, loaded, taken)
                &&& after == (Model { info_list: after.info_list, ..taken })
                &&& after.log_wf()
                &&& opt_text_view(after.info_list) == Some(
                    message_text(refreshed_message(refresh_periods(opt_text_view(before.info_list)))),
                )
            }
    }

    /// The message that the revset was set.
    pub open spec fn revset_message(revset: Seq<char>) -> Seq<char> {
        "Revset set to '"@ + revset + "'"@
    }

    /// Submits the revset that was edited, with what loading the log for it
    /// gave: the commits, or the message of the engine. Where the log could
    /// not be loaded, or does not follow the four levels, that is shown and
    /// the revset stays what it was.
    pub fn revset_edit_submit(&mut self, loaded: Result<Vec<LogTreeNode>, String>)
        ensures
            final(self).text_input_location == TextInputLocation::Inactive,
            final(self).text_input@.len() == 0,
            final(self).text_cursor == 0,
            match loaded {
                Ok(commits) => if well_formed(nodes_view(commits@), 0) {
                    Self::revset_set(*old(self), nodes_view(commits@), *final(self))
                } else {
                    Self::revset_kept(
                        *old(self),
                        "The log does not have the expected shape"@,
                        *final(self),
                    )
                },
                Err(message) => Self::revset_kept(*old(self), message@, *final(self)),
            },
    {
        let ghost before = *self;
        let mut new_revset = String::new();
        std::mem::swap(&mut self.text_input, &mut new_revset);
        self.text_cursor = 0;
        let mut location = TextInputLocation::Inactive;
        std::mem::swap(&mut self.text_input_location, &mut location);
        let old_revset = match location {
            TextInputLocation::Revset { original } => original,
            _ => self.revset.clone(),
        };
        let ghost closed = *self;
        match loaded {
            Ok(commits) => {
                match self.sync(commits) {
                    Ok(()) => {
                        let ghost taken = *self;
                        let message = joined("Revset set to '", new_revset.as_str(), "'");
                        self.revset = new_revset;
                        self.info_list = Some(Text::raw(message.as_str()));
                        assert(Self::input_closed_for_revset(before, closed) && synced(
                            closed,
                            nodes_view(commits@),
                            taken,
                        ));
                    },
                    Err(_) => {
                        self.show_message("The log does not have the expected shape");
                        self.revset = old_revset;
                    },
                }
            },
            Err(message) => {
                self.show_message(message.as_str());
                self.revset = old_revset;
            },
        }
    }

    /// Whether `after` is `before` with the text input closed and emptied.
    pub open spec fn input_closed_for_revset(before: Model, after: Model) -> bool {
        &&& after == (Model {
            text_input: after.text_input,
            text_cursor: 0,
            text_input_location: TextInputLocation::Inactive,
            ..before
        })
        &&& after.text_input@.len() == 0
    }

    /// Whether `after` is `before` with the edited revset set and the
    /// commits `loaded` for it taken as the log.
    pub open spec fn revset_set(before: Model, loaded: Seq<NodeView>, after: Model) -> bool {
        exists|closed: Model, taken: Model|
            {
                &&& #[trigger] Self::input_closed_for_revset(before, closed)
                &&& #[trigger] synced(closed, loaded, taken)
                &&& after == (Model { info_list: after.info_list, revset: after.revset, ..taken })
                &&& after.log_wf()
                &&& after.revset@ == before.text_input@
                &&& opt_text_view(after.info_list) == Some(
                    message_text(Self::revset_message(before.text_input@)),
                )
            }
    }

    /// Whether `after` is `before` with the text input closed, the revset as
    /// it was before the edit, and `message` shown.
    pub open spec fn revset_kept(before: Model, message: Seq<char>, after: Model) -> bool {
        &&& after == (Model {
            text_input: after.text_input,
            text_cursor: 0,
            text_input_location: TextInputLocation::Inactive,
            info_list: after.info_list,
            revset: after.revset,
            ..before
        })
        &&& after.text_input@.len() == 0
        &&& after.revset@ == before.revset_before_edit()
        &&& opt_text_view(after.info_list) == Some(shown_message(message))
    }

    /// The revset as it was before it was edited.
    pub open spec fn revset_before_edit(&self) -> Seq<char> {
        match self.text_input_location {
            TextInputLocation::Revset { original } => original@,
            _ => self.revset@,
        }
    }

    /// The model for a repository and a revset, with the log that was
    /// loaded for them and the home directory of the user, if it is known.
    pub fn new(repository: String, revset: String, home: Option<&str>, commits: Vec<LogTreeNode>) -> (r:
        Result<Model, LogTreeError>)
        ensures
            r.is_ok() == well_formed(nodes_view(commits@), 0),
            r.is_err() ==> r.unwrap_err() == LogTreeError::Malformed,
            r.is_ok() ==> {
                let model = r.unwrap();
                let loaded = nodes_view(commits@);
                let k = working_copy_index(loaded);
                let pos = if k < loaded.len() {
                    seq![k as usize]
                } else {
                    seq![0usize]
                };
                &&& model.wf()
                &&& loaded.len() == 0 ==> model.jj_log@ == loaded && model.log_list_state.selected
                    == Some(0usize)
                &&& loaded.len() > 0 ==> model.jj_log@ == toggled(loaded, pos)
                    && model.selected_position() == Some(pos)
                &&& model.log_list_state.offset == 0
                &&& model.state == State::Running
                &&& model.revset == revset
                &&& model.global_args.repository == repository
                &&& !model.global_args.ignore_immutable
                &&& model.display_repository@ == display_repository(
                    repository@,
                    match home {
                        Some(h) => Some(h@),
                        None => None,
                    },
                )
                &&& registered_rows(leaf_model(None, true), default_rows(), model.command_tree@)
                &&& model.command_keys@.len() == 0
                &&& model.queued_jj_commands@.len() == 0
                &&& model.accumulated_command_output@.len() == 0
                &&& model.saved_change_id.is_none()
                &&& model.saved_file_path.is_none()
                &&& model.saved_tree_position.is_none()
                &&& model.current_popup.is_none()
                &&& model.popup_filter@.len() == 0
                &&& model.popup_selection == 0
                &&& model.text_input_location == TextInputLocation::Inactive
                &&& model.text_input@.len() == 0
                &&& model.text_cursor == 0
                &&& model.info_list.is_none()
                &&& model.log_list_layout == (Rect { x: 0, y: 0, width: 0, height: 0 })
                &&& model.log_list_scroll_padding == 0
                &&& model.last_click_time.is_none()
                &&& model.last_click_pos.is_none()
            },
    {
        let display = format_repository_for_display(repository.as_str(), home);
        let mut model = Model {
            state: State::Running,
            command_tree: CommandTree::new(),
            command_keys: Vec::new(),
            queued_jj_commands: Vec::new(),
            accumulated_command_output: Vec::new(),
            saved_tree_position: None,
            saved_change_id: None,
            saved_file_path: None,
            jj_log: JjLog::new(),
            log_list: Vec::new(),
            log_list_state: ListState { offset: 0, selected: None },
            log_list_tree_positions: Vec::new(),
            log_list_layout: Rect { x: 0, y: 0, width: 0, height: 0 },
            log_list_scroll_padding: 0,
            info_list: None,
            current_popup: None,
            text_input_location: TextInputLocation::Inactive,
            popup_filter: String::new(),
            popup_selection: 0,
            text_input: String::new(),
            text_cursor: 0,
            last_click_time: None,
            last_click_pos: None,
            display_repository: display,
            global_args: GlobalArgs { repository, ignore_immutable: false },
            revset,
        };
        match model.sync(commits) {
            Ok(()) => Ok(model),
            Err(e) => Err(e),
        }
    }
}

} // verus!
