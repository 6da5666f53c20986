//! The modal sub-states of the model: text prompts and popups, and the
//! commands that lead into them. Where a command needs something from the
//! engine first, it says so in the [`Effect`] that it returns; the program
//! runs the query and hands the output back.

use vstd::prelude::*;
use vstd::string::*;
use crate::commands::{
    joined, next_prev_direction_name, next_prev_flag, next_prev_mode_flag, next_prev_name,
    queued_or_invalid,
};
use crate::listing::{listed_names, parse_listing, ListKind};
use crate::log_tree::{KindView, NodeKind};
use crate::model::{invalid_selection_shown, queued, Model};
use crate::shell_out::{commands_view, list_args, GlobalArgsView, JjCommand, JjCommandView};
use crate::strings::strings_view;
use crate::text::{opt_text_view, show_text, shown_text, SpanView};
use crate::update::{
    DescribeMode, GitFetchMode, GitPushMode, MetaeditAction, NextPrevDirection, NextPrevMode,
    ParallelizeSource, Popup, TextInputLocation, TextPromptAction,
};

verus! {

broadcast use vstd::string::group_string_axioms;

/// What a query to the engine is for, which decides what is done with its
/// output.
#[derive(Debug, Clone, PartialEq, Eq)]
pub enum Query {
    BookmarkDelete,
    BookmarkForget { include_remotes: bool },
    BookmarkRename,
    BookmarkSet,
    BookmarkTrack,
    BookmarkUntrack,
    FileTrack,
    GitFetchRemotes { select_for_branches: bool },
    GitFetchBranches { remote: String },
    GitPushBookmark { named: bool, change_id: String },
    TugAndGitPush,
    WorkspaceForget,
    WorkspaceUpdateStale,
}

/// [`Query`] as a mathematical value.
pub enum QueryView {
    BookmarkDelete,
    BookmarkForget { include_remotes: bool },
    BookmarkRename,
    BookmarkSet,
    BookmarkTrack,
    BookmarkUntrack,
    FileTrack,
    GitFetchRemotes { select_for_branches: bool },
    GitFetchBranches { remote: Seq<char> },
    GitPushBookmark { named: bool, change_id: Seq<char> },
    TugAndGitPush,
    WorkspaceForget,
    WorkspaceUpdateStale,
}

impl View for Query {
    type V = QueryView;

    open spec fn view(&self) -> QueryView {
        match self {
            Query::BookmarkDelete => QueryView::BookmarkDelete,
            Query::BookmarkForget { include_remotes } => QueryView::BookmarkForget {
                include_remotes: *include_remotes,
            },
            Query::BookmarkRename => QueryView::BookmarkRename,
            Query::BookmarkSet => QueryView::BookmarkSet,
            Query::BookmarkTrack => QueryView::BookmarkTrack,
            Query::BookmarkUntrack => QueryView::BookmarkUntrack,
            Query::FileTrack => QueryView::FileTrack,
            Query::GitFetchRemotes { select_for_branches } => QueryView::GitFetchRemotes {
                select_for_branches: *select_for_branches,
            },
            Query::GitFetchBranches { remote } => QueryView::GitFetchBranches { remote: remote@ },
            Query::GitPushBookmark { named, change_id } => QueryView::GitPushBookmark {
                named: *named,
                change_id: change_id@,
            },
            Query::TugAndGitPush => QueryView::TugAndGitPush,
            Query::WorkspaceForget => QueryView::WorkspaceForget,
            Query::WorkspaceUpdateStale => QueryView::WorkspaceUpdateStale,
        }
    }
}

/// What is to be opened in the editor.
#[derive(Debug, Clone, PartialEq, Eq)]
pub struct EditorRequest {
    pub change_id: String,
    pub file_path: String,
    /// The file, with a colon and the line where a line is meant.
    pub file_arg: String,
    /// Whether the file of the working copy is meant, which is opened in
    /// place; the file of another change is opened as a copy.
    pub working_copy: bool,
}

/// What the program has to do for the model.
#[derive(Debug)]
pub enum Effect {
    Nothing,
    /// Load the log for the revset of the model and hand it to
    /// `Model::refresh`.
    Refresh,
    /// Load the log for the revset in the text input and hand what came of
    /// it to `Model::revset_edit_submit`.
    SubmitRevset,
    /// Run the query and hand its output to `Model::query_finished`.
    Query(JjCommand, Query),
    /// Open the editor.
    OpenEditor(EditorRequest),
}

/// Whether an effect is the given query, run by the given invocation.
pub open spec fn is_query(effect: Effect, cmd: JjCommandView, query: QueryView) -> bool {
    effect matches Effect::Query(c, q) && c@ == cmd && q@ == query
}

/// The lines of a message: what the ANSI parser makes of it, or the message
/// as one line where the parser rejects it.
pub open spec fn shown_message(message: Seq<char>) -> Seq<Seq<SpanView>> {
    shown_text(message)
}

/// Whether `after` is `before` with the given message shown.
pub open spec fn message_shown(before: Model, message: Seq<char>, after: Model) -> bool {
    &&& after == (Model { info_list: after.info_list, ..before })
    &&& opt_text_view(after.info_list) == Some(shown_message(message))
}

/// Whether `after` is `before` with a text prompt opened on an empty text.
pub open spec fn prompt_opened(
    before: Model,
    prompt: &'static str,
    placeholder: &'static str,
    action: TextPromptAction,
    after: Model,
) -> bool {
    &&& after == (Model {
        text_input: after.text_input,
        text_cursor: 0,
        text_input_location: TextInputLocation::Popup { prompt, placeholder, action },
        ..before
    })
    &&& after.text_input@.len() == 0
}

/// Whether `after` is `before` with the text input ended and emptied.
pub open spec fn input_closed(before: Model, after: Model) -> bool {
    &&& after == (Model {
        text_input_location: TextInputLocation::Inactive,
        text_input: after.text_input,
        text_cursor: 0,
        ..before
    })
    &&& after.text_input@.len() == 0
}

/// Whether `after` is `before` with the popup closed.
pub open spec fn popup_closed(before: Model, after: Model) -> bool {
    &&& after == (Model {
        current_popup: None,
        popup_filter: after.popup_filter,
        popup_selection: 0,
        ..before
    })
    &&& after.popup_filter@.len() == 0
}

/// Whether `after` is `before` with the popup opened on the first item and
/// an empty filter.
pub open spec fn popup_opened(before: Model, popup: Popup, after: Model) -> bool {
    &&& after == (Model {
        current_popup: Some(popup),
        popup_filter: after.popup_filter,
        popup_selection: 0,
        ..before
    })
    &&& after.popup_filter@.len() == 0
}

pub open spec fn metaedit_flag(action: MetaeditAction) -> Seq<char> {
    match action {
        MetaeditAction::UpdateChangeId => "--update-change-id"@,
        MetaeditAction::UpdateAuthorTimestamp => "--update-author-timestamp"@,
        MetaeditAction::UpdateAuthor => "--update-author"@,
        MetaeditAction::ForceRewrite => "--force-rewrite"@,
        MetaeditAction::SetAuthor => "--author"@,
        MetaeditAction::SetAuthorTimestamp => "--author-timestamp"@,
    }
}

/// The invocation that a submitted text prompt stands for.
pub open spec fn prompt_command(
    action: TextPromptAction,
    text: Seq<char>,
    global_args: GlobalArgsView,
) -> JjCommandView {
    match action {
        TextPromptAction::BookmarkRenameSubmit { old_name } => JjCommand::bookmark_rename_spec(
            old_name@,
            text,
            global_args,
        ),
        TextPromptAction::MetaeditSetAuthor { change_id } => JjCommand::metaedit_spec(
            change_id@,
            "--author"@,
            Some(text),
            global_args,
        ),
        TextPromptAction::MetaeditSetTimestamp { change_id } => JjCommand::metaedit_spec(
            change_id@,
            "--author-timestamp"@,
            Some(text),
            global_args,
        ),
        TextPromptAction::ParallelizeRevset => JjCommand::parallelize_spec(text, global_args),
        TextPromptAction::NextPrev { direction, mode } => JjCommand::next_prev_spec(
            next_prev_name(direction),
            next_prev_flag(mode),
            Some(text),
            global_args,
        ),
        TextPromptAction::WorkspaceAdd => JjCommand::workspace_add_spec(text, global_args),
        TextPromptAction::WorkspaceRenameSubmit => JjCommand::workspace_rename_spec(text, global_args),
    }
}

/// How the listing of a query is read.
pub open spec fn query_kind(query: QueryView) -> ListKind {
    match query {
        QueryView::BookmarkUntrack => ListKind::TrackedBookmarks,
        QueryView::FileTrack => ListKind::Paths,
        QueryView::GitFetchRemotes { .. } => ListKind::Remotes,
        QueryView::GitFetchBranches { .. } => ListKind::NamedBookmarks,
        QueryView::TugAndGitPush => ListKind::Plain,
        QueryView::WorkspaceForget | QueryView::WorkspaceUpdateStale => ListKind::Workspaces,
        _ => ListKind::Bookmarks,
    }
}

/// What is said where a query lists nothing; nothing is said after the
/// query for a rename.
pub open spec fn empty_message(query: QueryView) -> Option<Seq<char>> {
    match query {
        QueryView::BookmarkDelete => Some("No bookmarks to delete"@),
        QueryView::BookmarkForget { include_remotes } => Some(
            if include_remotes {
                "No bookmarks to forget (including remotes)"@
            } else {
                "No bookmarks to forget"@
            },
        ),
        QueryView::BookmarkRename => None,
        QueryView::BookmarkSet => Some("No bookmarks to set"@),
        QueryView::BookmarkTrack => Some("No remote bookmarks to track"@),
        QueryView::BookmarkUntrack => Some("No tracked remote bookmarks to untrack"@),
        QueryView::FileTrack => Some("No untracked files to track"@),
        QueryView::GitFetchRemotes { .. } => Some("No remotes configured"@),
        QueryView::GitFetchBranches { remote } => Some("No branches found on remote '"@ + remote + "'"@),
        QueryView::GitPushBookmark { .. } => Some("No bookmarks to push"@),
        QueryView::TugAndGitPush => Some("No bookmarks to tug and push"@),
        QueryView::WorkspaceForget => Some("No workspaces to forget"@),
        QueryView::WorkspaceUpdateStale => Some("No workspaces to update"@),
    }
}

/// Whether a popup is the one that a query opens on the names it listed.
pub open spec fn is_query_popup(query: QueryView, names: Seq<Seq<char>>, popup: Popup) -> bool {
    &&& strings_view(popup.spec_items()@) == names
    &&& match query {
        QueryView::BookmarkDelete => popup is BookmarkDelete,
        QueryView::BookmarkForget { include_remotes } => popup matches Popup::BookmarkForget {
            include_remotes: i,
            ..
        } && i == include_remotes,
        QueryView::BookmarkRename => popup is BookmarkRenameSelect,
        QueryView::BookmarkSet => popup is BookmarkSet,
        QueryView::BookmarkTrack => popup is BookmarkTrack,
        QueryView::BookmarkUntrack => popup is BookmarkUntrack,
        QueryView::FileTrack => popup is FileTrack,
        QueryView::GitFetchRemotes { select_for_branches } => popup matches Popup::GitFetchRemote {
            select_for_branches: s,
            ..
        } && s == select_for_branches,
        QueryView::GitFetchBranches { remote } => popup matches Popup::GitFetchRemoteBranches {
            remote: r,
            ..
        } && r@ == remote,
        QueryView::GitPushBookmark { named, change_id } => popup matches Popup::GitPushBookmark {
            change_id: c,
            is_named_mode,
            ..
        } && c@ == change_id && is_named_mode == named,
        QueryView::TugAndGitPush => false,
        QueryView::WorkspaceForget => popup is WorkspaceForget,
        QueryView::WorkspaceUpdateStale => popup is WorkspaceUpdateStale,
    }
}

/// The invocations that tug and then push each of the bookmarks.
pub open spec fn tug_and_push_commands(names: Seq<Seq<char>>, global_args: GlobalArgsView) -> Seq<
    JjCommandView,
> {
    seq![JjCommand::tug_spec(global_args)] + names.map_values(
        |name: Seq<char>| JjCommand::git_push_spec(Some("-b"@), Some(name), global_args),
    )
}

impl Model {
    /// Shows a message, coloured as its ANSI codes say.
    pub fn show_message(&mut self, message: &str)
        ensures
            message_shown(*old(self), message@, *final(self)),
    {
        self.info_list = Some(show_text(message));
    }

    pub(crate) fn start_text_prompt(
        &mut self,
        prompt: &'static str,
        placeholder: &'static str,
        action: TextPromptAction,
    )
        ensures
            prompt_opened(*old(self), prompt, placeholder, action, *final(self)),
    {
        self.text_input = String::new();
        self.text_cursor = 0;
        self.text_input_location = TextInputLocation::Popup { prompt, placeholder, action };
    }

    /// Whether `after` is what [`Model::bookmark_edit_start`] makes of `before`.
    pub open spec fn bookmark_edit_start_result(before: Model, after: Model) -> bool {
        &&& (match before.selected_change_id() {
            Some(id) => {
                &&& after == (Model {
                    text_input: after.text_input,
                    text_cursor: 0,
                    text_input_location: after.text_input_location,
                    ..before
                })
                &&& after.text_input@.len() == 0
                &&& after.text_input_location matches TextInputLocation::Bookmark { change_id }
                    && change_id@ == id
            },
            None => invalid_selection_shown(before, after),
            })
    }

    /// Start inline bookmark editing for the selected commit
    pub fn bookmark_edit_start(&mut self)
        ensures
            Self::bookmark_edit_start_result(*old(self), *final(self)),
    {
        match self.selected_change_id_owned() {
            Some(change_id) => {
                self.text_input = String::new();
                self.text_cursor = 0;
                self.text_input_location = TextInputLocation::Bookmark { change_id };
            },
            None => self.invalid_selection(),
        }
    }

    /// Submit the bookmark creation from inline edit
    pub fn bookmark_edit_submit(&mut self)
        ensures
            match old(self).text_input_location {
                TextInputLocation::Bookmark { change_id } => exists|mid: Model| #[trigger]
                    input_closed(*old(self), mid) && queued(
                        mid,
                        seq![
                            JjCommand::bookmark_create_spec(
                                old(self).text_input@,
                                change_id@,
                                old(self).global_args@,
                            ),
                        ],
                        *final(self),
                    ),
                _ => *final(self) == *old(self),
            },
    {
        let change_id = match &self.text_input_location {
            TextInputLocation::Bookmark { change_id } => change_id.clone(),
            _ => {
                return ;
            },
        };
        let bookmark_name = self.text_input.clone();
        self.bookmark_edit_cancel();
        let ghost mid = *self;
        let cmd = JjCommand::bookmark_create(
            bookmark_name.as_str(),
            change_id.as_str(),
            self.global_args.duplicate(),
        );
        self.queue_jj_command(cmd);
        assert(input_closed(*old(self), mid));
    }

    /// The description of the commit that the cursor is in; empty where it
    /// has none.
    pub open spec fn selected_description(&self) -> Seq<char> {
        match self.selected_position() {
            Some(pos) => match self.commit_at(pos) {
                Some(n) => match n.kind {
                    KindView::Commit { description_first_line: Some(d), .. } => d,
                    _ => Seq::empty(),
                },
                None => Seq::empty(),
            },
            None => Seq::empty(),
        }
    }

    /// Whether `after` is what [`Model::description_edit_start`] makes of `before`.
    pub open spec fn description_edit_start_result(
        before: Model,
        mode: DescribeMode,
        after: Model,
    ) -> bool {
        &&& (match before.selected_change_id() {
            Some(id) => {
                &&& after == (Model {
                    text_input: after.text_input,
                    text_cursor: before.selected_description().len() as usize,
                    text_input_location: after.text_input_location,
                    ..before
                })
                &&& after.text_input@ == before.selected_description()
                &&& after.text_input_location matches TextInputLocation::Description {
                    change_id,
                    mode: m,
                } && change_id@ == id && m == mode
            },
            None => invalid_selection_shown(before, after),
            })
    }

    /// Start inline description editing for the selected commit
    pub fn description_edit_start(&mut self, mode: DescribeMode)
        ensures
            Self::description_edit_start_result(*old(self), mode, *final(self)),
    {
        match self.selected_change_id_owned() {
            Some(change_id) => {
                let existing = match self.log_list_state.selected {
                    Some(s) => if s < self.log_list_tree_positions.len() {
                        match self.jj_log.get_tree_commit(&self.log_list_tree_positions[s]) {
                            Some(commit) => match &commit.kind {
                                NodeKind::Commit { description_first_line: Some(d), .. } => d.clone(),
                                _ => String::new(),
                            },
                            None => String::new(),
                        }
                    } else {
                        String::new()
                    },
                    None => String::new(),
                };
                self.text_cursor = existing.as_str().unicode_len();
                self.text_input = existing;
                self.text_input_location = TextInputLocation::Description { change_id, mode };
            },
            None => self.invalid_selection(),
        }
    }

    /// Submit the description edit
    pub fn description_edit_submit(&mut self)
        ensures
            match old(self).text_input_location {
                TextInputLocation::Description { change_id, mode } => exists|mid: Model| #[trigger]
                    input_closed(*old(self), mid) && queued(
                        mid,
                        seq![
                            JjCommand::describe_with_message_spec(
                                change_id@,
                                old(self).text_input@,
                                mode == DescribeMode::IgnoreImmutable,
                                old(self).global_args@,
                            ),
                        ],
                        *final(self),
                    ),
                _ => *final(self) == *old(self),
            },
    {
        let (change_id, mode) = match &self.text_input_location {
            TextInputLocation::Description { change_id, mode } => (change_id.clone(), *mode),
            _ => {
                return ;
            },
        };
        let message = self.text_input.clone();
        self.text_input_cancel();
        let ghost mid = *self;
        let ignore_immutable = mode == DescribeMode::IgnoreImmutable;
        let cmd = JjCommand::describe_with_message(
            change_id.as_str(),
            message.as_str(),
            ignore_immutable,
            self.global_args.duplicate(),
        );
        self.queue_jj_command(cmd);
        assert(input_closed(*old(self), mid));
    }

    /// Whether `after` is what [`Model::jj_metaedit`] makes of `before`.
    pub open spec fn jj_metaedit_result(
        before: Model,
        action: MetaeditAction,
        after: Model,
    ) -> bool {
        &&& (match before.selected_change_id() {
            None => invalid_selection_shown(before, after),
            Some(id) => match action {
                MetaeditAction::SetAuthor => after.text_input_location matches TextInputLocation::Popup {
                    prompt,
                    placeholder,
                    action: TextPromptAction::MetaeditSetAuthor { change_id },
                } && change_id@ == id && prompt_opened(
                    before,
                    prompt,
                    placeholder,
                    TextPromptAction::MetaeditSetAuthor { change_id },
                    after,
                ) && prompt@ == "Set Author"@ && placeholder@ == "Name <email@example.com>"@,
                MetaeditAction::SetAuthorTimestamp => after.text_input_location matches TextInputLocation::Popup {
                    prompt,
                    placeholder,
                    action: TextPromptAction::MetaeditSetTimestamp { change_id },
                } && change_id@ == id && prompt_opened(
                    before,
                    prompt,
                    placeholder,
                    TextPromptAction::MetaeditSetTimestamp { change_id },
                    after,
                ) && prompt@ == "Set Author Timestamp"@ && placeholder@
                    == "2000-01-23T01:23:45-08:00"@,
                _ => queued(
                    before,
                    seq![JjCommand::metaedit_spec(id, metaedit_flag(action), None, before.global_args@)],
                    after,
                ),
            },
            })
    }

    /// Edits the metadata of the selection: at once, or after a prompt for
    /// the author or the timestamp.
    pub fn jj_metaedit(&mut self, action: MetaeditAction)
        ensures
            Self::jj_metaedit_result(*old(self), action, *final(self)),
    {
        let change_id = match self.selected_change_id_owned() {
            Some(id) => id,
            None => {
                self.invalid_selection();
                return ;
            },
        };
        match action {
            MetaeditAction::SetAuthor => {
                self.start_text_prompt(
                    "Set Author",
                    "Name <email@example.com>",
                    TextPromptAction::MetaeditSetAuthor { change_id },
                );
            },
            MetaeditAction::SetAuthorTimestamp => {
                self.start_text_prompt(
                    "Set Author Timestamp",
                    "2000-01-23T01:23:45-08:00",
                    TextPromptAction::MetaeditSetTimestamp { change_id },
                );
            },
            _ => {
                let flag = match action {
                    MetaeditAction::UpdateChangeId => "--update-change-id",
                    MetaeditAction::UpdateAuthorTimestamp => "--update-author-timestamp",
                    MetaeditAction::UpdateAuthor => "--update-author",
                    _ => "--force-rewrite",
                };
                let cmd = JjCommand::metaedit(change_id.as_str(), flag, None, self.global_args.duplicate());
                self.queue_jj_command(cmd);
            },
        }
    }

    /// Whether `after` is what [`Model::jj_next_prev`] makes of `before`.
    pub open spec fn jj_next_prev_result(
        before: Model,
        direction: NextPrevDirection,
        mode: NextPrevMode,
        offset: bool,
        after: Model,
    ) -> bool {
        &&& (offset ==> exists|prompt: &'static str, placeholder: &'static str| #[trigger]
            prompt_opened(
                before,
                prompt,
                placeholder,
                TextPromptAction::NextPrev { direction, mode },
                after,
            ) && prompt@ == "Enter Offset"@ && placeholder@ == "positive integer"@)
        &&& (!offset ==> queued(
            before,
            seq![
                JjCommand::next_prev_spec(
                    next_prev_name(direction),
                    next_prev_flag(mode),
                    None,
                    before.global_args@,
                ),
            ],
            after,
            ))
    }

    /// Moves the working copy to a child or a parent: at once, or after a
    /// prompt for how far.
    pub fn jj_next_prev(&mut self, direction: NextPrevDirection, mode: NextPrevMode, offset: bool)
        ensures
            Self::jj_next_prev_result(*old(self), direction, mode, offset, *final(self)),
    {
        if offset {
            let prompt = "Enter Offset";
            let placeholder = "positive integer";
            self.start_text_prompt(prompt, placeholder, TextPromptAction::NextPrev { direction, mode });
            assert(prompt_opened(
                *old(self),
                prompt,
                placeholder,
                TextPromptAction::NextPrev { direction, mode },
                *self,
            ));
        } else {
            let cmd = JjCommand::next_prev(
                next_prev_direction_name(direction),
                next_prev_mode_flag(mode),
                None,
                self.global_args.duplicate(),
            );
            self.queue_jj_command(cmd);
        }
    }

    /// The revisions that are made siblings.
    pub open spec fn parallelize_revset(&self, source: ParallelizeSource) -> Option<Seq<char>> {
        match source {
            ParallelizeSource::Range => match (self.saved_change(), self.selected_change_id()) {
                (Some(from), Some(to)) => Some(from + "::"@ + to),
                _ => None,
            },
            ParallelizeSource::Selection => match self.selected_change_id() {
                Some(id) => Some(id + "-::"@ + id),
                None => None,
            },
            ParallelizeSource::Revset => None,
        }
    }

    /// Whether `after` is what [`Model::jj_parallelize`] makes of `before`.
    pub open spec fn jj_parallelize_result(
        before: Model,
        source: ParallelizeSource,
        after: Model,
    ) -> bool {
        &&& (source == ParallelizeSource::Revset ==> exists|prompt: &'static str, placeholder: &'static str| #[trigger]
            prompt_opened(
                before,
                prompt,
                placeholder,
                TextPromptAction::ParallelizeRevset,
                after,
            ) && prompt@ == "Parallelize Revset"@ && placeholder@ == "Enter revset expression"@)
        &&& (source != ParallelizeSource::Revset ==> queued_or_invalid(
            before,
            match before.parallelize_revset(source) {
                Some(revset) => Some(JjCommand::parallelize_spec(revset, before.global_args@)),
                None => None,
            },
            after,
            ))
    }

    /// Makes changes siblings: the selection and its parent, the range from
    /// the saved change to the selection, or what a prompt asks for.
    pub fn jj_parallelize(&mut self, source: ParallelizeSource)
        ensures
            Self::jj_parallelize_result(*old(self), source, *final(self)),
    {
        let selected = self.get_selected_change_id();
        let revset = match source {
            ParallelizeSource::Range => match (self.get_saved_change_id(), selected) {
                (Some(from), Some(to)) => Some(joined(from.as_str(), "::", to.as_str())),
                _ => None,
            },
            ParallelizeSource::Selection => match selected {
                Some(id) => Some(joined(id.as_str(), "-::", id.as_str())),
                None => None,
            },
            ParallelizeSource::Revset => {
                let prompt = "Parallelize Revset";
                let placeholder = "Enter revset expression";
                self.start_text_prompt(prompt, placeholder, TextPromptAction::ParallelizeRevset);
                assert(prompt_opened(
                    *old(self),
                    prompt,
                    placeholder,
                    TextPromptAction::ParallelizeRevset,
                    *self,
                ));
                return ;
            },
        };
        let cmd = match &revset {
            Some(r) => Some(JjCommand::parallelize(r.as_str(), self.global_args.duplicate())),
            None => None,
        };
        self.queue_or_invalid(cmd)
    }

    /// Asks for the new name of the current workspace.
    pub fn workspace_rename_current_start(&mut self)
        ensures
            exists|prompt: &'static str, placeholder: &'static str| #[trigger]
                prompt_opened(
                    *old(self),
                    prompt,
                    placeholder,
                    TextPromptAction::WorkspaceRenameSubmit,
                    *final(self),
                ) && prompt@ == "Enter New Workspace Name"@ && placeholder@ == "new-workspace-name"@,
    {
        let prompt = "Enter New Workspace Name";
        let placeholder = "new-workspace-name";
        self.start_text_prompt(prompt, placeholder, TextPromptAction::WorkspaceRenameSubmit);
        assert(prompt_opened(
            *old(self),
            prompt,
            placeholder,
            TextPromptAction::WorkspaceRenameSubmit,
            *self,
        ));
    }

    /// Builds the invocation that a submitted text prompt stands for.
    fn prompt_invocation(&self, action: &TextPromptAction, text: &str) -> (cmd: JjCommand)
        ensures
            cmd@ == prompt_command(*action, text@, self.global_args@),
    {
        match action {
            TextPromptAction::BookmarkRenameSubmit { old_name } => JjCommand::bookmark_rename(
                old_name.as_str(),
                text,
                self.global_args.duplicate(),
            ),
            TextPromptAction::MetaeditSetAuthor { change_id } => JjCommand::metaedit(
                change_id.as_str(),
                "--author",
                Some(text),
                self.global_args.duplicate(),
            ),
            TextPromptAction::MetaeditSetTimestamp { change_id } => JjCommand::metaedit(
                change_id.as_str(),
                "--author-timestamp",
                Some(text),
                self.global_args.duplicate(),
            ),
            TextPromptAction::ParallelizeRevset => JjCommand::parallelize(
                text,
                self.global_args.duplicate(),
            ),
            TextPromptAction::NextPrev { direction, mode } => JjCommand::next_prev(
                next_prev_direction_name(*direction),
                next_prev_mode_flag(*mode),
                Some(text),
                self.global_args.duplicate(),
            ),
            TextPromptAction::WorkspaceAdd => JjCommand::workspace_add(text, self.global_args.duplicate()),
            TextPromptAction::WorkspaceRenameSubmit => JjCommand::workspace_rename(
                text,
                self.global_args.duplicate(),
            ),
        }
    }

    /// Whether `after` and `effect` are what [`Model::text_input_submit`] makes of `before`.
    pub open spec fn text_input_submit_result(before: Model, effect: Effect, after: Model) -> bool {
        &&& (match before.text_input_location {
            TextInputLocation::Popup { action, .. } => effect is Nothing && exists|mid: Model| #[trigger]
                input_closed(before, mid) && queued(
                    mid,
                    seq![prompt_command(action, before.text_input@, before.global_args@)],
                    after,
                ),
            TextInputLocation::Revset { .. } => effect is SubmitRevset && after == before,
            TextInputLocation::Bookmark { change_id } => effect is Nothing && exists|mid: Model| #[trigger]
                input_closed(before, mid) && queued(
                    mid,
                    seq![
                        JjCommand::bookmark_create_spec(
                            before.text_input@,
                            change_id@,
                            before.global_args@,
                        ),
                    ],
                    after,
                ),
            TextInputLocation::Description { change_id, mode } => effect is Nothing && exists|mid: Model| #[trigger]
                input_closed(before, mid) && queued(
                    mid,
                    seq![
                        JjCommand::describe_with_message_spec(
                            change_id@,
                            before.text_input@,
                            mode == DescribeMode::IgnoreImmutable,
                            before.global_args@,
                        ),
                    ],
                    after,
                ),
            TextInputLocation::Inactive => effect is Nothing && after == before,
            })
    }

    /// Submit text input and execute the associated action based on
    /// location. The revset is not submitted here: the log has to be loaded
    /// for it first, which the effect asks for.
    pub fn text_input_submit(&mut self) -> (effect: Effect)
        ensures
            Self::text_input_submit_result(*old(self), effect, *final(self)),
    {
        match &self.text_input_location {
            TextInputLocation::Popup { .. } => {},
            TextInputLocation::Revset { .. } => {
                return Effect::SubmitRevset;
            },
            TextInputLocation::Bookmark { .. } => {
                self.bookmark_edit_submit();
                return Effect::Nothing;
            },
            TextInputLocation::Description { .. } => {
                self.description_edit_submit();
                return Effect::Nothing;
            },
            TextInputLocation::Inactive => {
                return Effect::Nothing;
            },
        }
        let mut location = TextInputLocation::Inactive;
        std::mem::swap(&mut self.text_input_location, &mut location);
        match location {
            TextInputLocation::Popup { action, .. } => {
                let text = self.text_input.clone();
                self.text_input_cancel();
                let ghost mid = *self;
                let cmd = self.prompt_invocation(&action, text.as_str());
                self.queue_jj_command(cmd);
                assert(input_closed(*old(self), mid));
                Effect::Nothing
            },
            _ => Effect::Nothing,
        }
    }
}

/// What choosing an item of a popup leads to.
pub enum Choice {
    /// The invocation is queued.
    Queue(JjCommandView),
    /// The selection does not fit.
    Invalid,
    /// The new name of the chosen bookmark is asked for.
    RenamePrompt(Seq<char>),
    /// The engine is asked first.
    Ask(JjCommandView, QueryView),
}

impl Model {
    /// What choosing `selected` in a popup leads to.
    pub open spec fn popup_choice(&self, popup: Popup, selected: Seq<char>) -> Choice {
        let global_args = self.global_args@;
        match popup {
            Popup::BookmarkDelete { .. } => Choice::Queue(JjCommand::bookmark_delete_spec(selected, global_args)),
            Popup::BookmarkForget { include_remotes, .. } => Choice::Queue(
                JjCommand::bookmark_forget_spec(selected, include_remotes, global_args),
            ),
            Popup::BookmarkRenameSelect { .. } => Choice::RenamePrompt(selected),
            Popup::BookmarkSet { .. } => match self.selected_change_id() {
                Some(id) => Choice::Queue(JjCommand::bookmark_set_spec(selected, id, global_args)),
                None => Choice::Invalid,
            },
            Popup::BookmarkTrack { .. } => Choice::Queue(JjCommand::bookmark_track_spec(selected, global_args)),
            Popup::BookmarkUntrack { .. } => Choice::Queue(
                JjCommand::bookmark_untrack_spec(selected, global_args),
            ),
            Popup::FileTrack { .. } => Choice::Queue(JjCommand::file_track_spec(selected, global_args)),
            Popup::GitFetchRemote { select_for_branches, .. } => if select_for_branches {
                Choice::Ask(
                    JjCommand::bookmark_list_with_args_spec(
                        seq!["bookmark"@, "list"@, "--remote"@, selected],
                        global_args,
                    ),
                    QueryView::GitFetchBranches { remote: selected },
                )
            } else {
                Choice::Queue(JjCommand::git_fetch_from_remote_spec(selected, None, global_args))
            },
            Popup::GitFetchRemoteBranches { remote, .. } => Choice::Queue(
                JjCommand::git_fetch_from_remote_spec(remote@, Some(selected), global_args),
            ),
            Popup::GitPushBookmark { change_id, is_named_mode, .. } => Choice::Queue(
                if is_named_mode {
                    JjCommand::git_push_spec(
                        Some("--named"@),
                        Some(selected + "="@ + change_id@),
                        global_args,
                    )
                } else {
                    JjCommand::git_push_spec(Some("-b"@), Some(selected), global_args)
                },
            ),
            Popup::WorkspaceForget { .. } => Choice::Queue(
                JjCommand::workspace_forget_spec(selected, global_args),
            ),
            Popup::WorkspaceUpdateStale { .. } => Choice::Queue(
                JjCommand::workspace_update_stale_spec(global_args),
            ),
        }
    }

    /// Whether `after` and `effect` are what a choice makes of `mid`, the
    /// model with the popup closed.
    pub open spec fn chosen(choice: Choice, mid: Model, effect: Effect, after: Model) -> bool {
        match choice {
            Choice::Queue(cmd) => effect is Nothing && queued(mid, seq![cmd], after),
            Choice::Invalid => effect is Nothing && invalid_selection_shown(mid, after),
            Choice::RenamePrompt(old_name) => {
                &&& effect is Nothing
                &&& after.text_input_location matches TextInputLocation::Popup {
                    prompt,
                    placeholder,
                    action: TextPromptAction::BookmarkRenameSubmit { old_name: name },
                }
                &&& name@ == old_name
                &&& prompt@ == "Enter New Bookmark Name"@
                &&& placeholder@ == "new-bookmark-name"@
                &&& prompt_opened(
                    mid,
                    prompt,
                    placeholder,
                    TextPromptAction::BookmarkRenameSubmit { old_name: name },
                    after,
                )
            },
            Choice::Ask(cmd, query) => is_query(effect, cmd, query) && after == mid,
        }
    }

    /// Whether `after` and `effect` are what [`Model::popup_select`] makes of `before`.
    pub open spec fn popup_select_result(before: Model, effect: Effect, after: Model) -> bool {
        &&& (before.popup_selection >= before.popup_items().len() ==> effect is Nothing
            && popup_closed(before, after))
        &&& (before.popup_selection < before.popup_items().len() ==> exists|mid: Model| #[trigger]
            popup_closed(before, mid) && Self::chosen(
                before.popup_choice(
                    before.current_popup.unwrap(),
                    before.popup_items()[before.popup_selection as int],
                ),
                mid,
                effect,
                after,
            ))
    }

    /// Confirms the highlighted item of the popup: the popup closes and the
    /// choice takes effect. Without a highlighted item the popup just
    /// closes.
    pub fn popup_select(&mut self) -> (effect: Effect)
        ensures
            Self::popup_select_result(*old(self), effect, *final(self)),
    {
        let selected = match self.get_popup_selection() {
            Some(s) => s,
            None => {
                self.popup_cancel();
                return Effect::Nothing;
            },
        };
        let change_id = self.selected_change_id_owned();
        let mut popup: Option<Popup> = None;
        std::mem::swap(&mut self.current_popup, &mut popup);
        self.popup_cancel();
        let ghost mid = *self;
        assert(popup_closed(*old(self), mid));
        let name = selected.as_str();
        let effect = match popup {
            None => Effect::Nothing,
            Some(Popup::BookmarkDelete { .. }) => {
                let cmd = JjCommand::bookmark_delete(name, self.global_args.duplicate());
                self.queue_jj_command(cmd);
                Effect::Nothing
            },
            Some(Popup::BookmarkForget { include_remotes, .. }) => {
                let cmd = JjCommand::bookmark_forget(name, include_remotes, self.global_args.duplicate());
                self.queue_jj_command(cmd);
                Effect::Nothing
            },
            Some(Popup::BookmarkRenameSelect { .. }) => {
                self.start_text_prompt(
                    "Enter New Bookmark Name",
                    "new-bookmark-name",
                    TextPromptAction::BookmarkRenameSubmit { old_name: selected },
                );
                Effect::Nothing
            },
            Some(Popup::BookmarkSet { .. }) => {
                match &change_id {
                    Some(id) => {
                        let cmd = JjCommand::bookmark_set(name, id.as_str(), self.global_args.duplicate());
                        self.queue_jj_command(cmd);
                    },
                    None => {
                        self.invalid_selection();
                    },
                }
                Effect::Nothing
            },
            Some(Popup::BookmarkTrack { .. }) => {
                let cmd = JjCommand::bookmark_track(name, self.global_args.duplicate());
                self.queue_jj_command(cmd);
                Effect::Nothing
            },
            Some(Popup::BookmarkUntrack { .. }) => {
                let cmd = JjCommand::bookmark_untrack(name, self.global_args.duplicate());
                self.queue_jj_command(cmd);
                Effect::Nothing
            },
            Some(Popup::FileTrack { .. }) => {
                let cmd = JjCommand::file_track(name, self.global_args.duplicate());
                self.queue_jj_command(cmd);
                Effect::Nothing
            },
            Some(Popup::GitFetchRemote { select_for_branches, .. }) => {
                if select_for_branches {
                    let args: [&str; 4] = ["bookmark", "list", "--remote", name];
                    assert(list_args(args@) =~= seq!["bookmark"@, "list"@, "--remote"@, name@]);
                    let cmd = JjCommand::bookmark_list_with_args(
                        args.as_slice(),
                        self.global_args.duplicate(),
                    );
                    Effect::Query(cmd, Query::GitFetchBranches { remote: selected })
                } else {
                    let cmd = JjCommand::git_fetch_from_remote(name, None, self.global_args.duplicate());
                    self.queue_jj_command(cmd);
                    Effect::Nothing
                }
            },
            Some(Popup::GitFetchRemoteBranches { remote, .. }) => {
                let cmd = JjCommand::git_fetch_from_remote(
                    remote.as_str(),
                    Some(name),
                    self.global_args.duplicate(),
                );
                self.queue_jj_command(cmd);
                Effect::Nothing
            },
            Some(Popup::GitPushBookmark { change_id, is_named_mode, .. }) => {
                let cmd = if is_named_mode {
                    let value = joined(name, "=", change_id.as_str());
                    JjCommand::git_push(Some("--named"), Some(value.as_str()), self.global_args.duplicate())
                } else {
                    JjCommand::git_push(Some("-b"), Some(name), self.global_args.duplicate())
                };
                self.queue_jj_command(cmd);
                Effect::Nothing
            },
            Some(Popup::WorkspaceForget { .. }) => {
                let cmd = JjCommand::workspace_forget(name, self.global_args.duplicate());
                self.queue_jj_command(cmd);
                Effect::Nothing
            },
            Some(Popup::WorkspaceUpdateStale { .. }) => {
                let cmd = JjCommand::workspace_update_stale(self.global_args.duplicate());
                self.queue_jj_command(cmd);
                Effect::Nothing
            },
        };
        assert(Self::chosen(
            old(self).popup_choice(
                old(self).current_popup.unwrap(),
                old(self).popup_items()[old(self).popup_selection as int],
            ),
            mid,
            effect,
            *self,
        ));
        effect
    }

    /// Asks for the bookmarks, to delete one.
    pub fn jj_bookmark_delete(&self) -> (effect: Effect)
        ensures
            is_query(effect, JjCommand::bookmark_list_spec(self.global_args@), QueryView::BookmarkDelete),
    {
        Effect::Query(JjCommand::bookmark_list(self.global_args.duplicate()), Query::BookmarkDelete)
    }

    /// Asks for the bookmarks, to forget one.
    pub fn jj_bookmark_forget(&self, include_remotes: bool) -> (effect: Effect)
        ensures
            is_query(
                effect,
                JjCommand::bookmark_list_with_args_spec(
                    if include_remotes {
                        seq!["bookmark"@, "list"@, "-T"@, "name"@, "--all-remotes"@]
                    } else {
                        seq!["bookmark"@, "list"@, "-T"@, "name"@]
                    },
                    self.global_args@,
                ),
                QueryView::BookmarkForget { include_remotes },
            ),
    {
        let cmd = if include_remotes {
            let args: [&str; 5] = ["bookmark", "list", "-T", "name", "--all-remotes"];
            assert(list_args(args@) =~= seq!["bookmark"@, "list"@, "-T"@, "name"@, "--all-remotes"@]);
            JjCommand::bookmark_list_with_args(args.as_slice(), self.global_args.duplicate())
        } else {
            let args: [&str; 4] = ["bookmark", "list", "-T", "name"];
            assert(list_args(args@) =~= seq!["bookmark"@, "list"@, "-T"@, "name"@]);
            JjCommand::bookmark_list_with_args(args.as_slice(), self.global_args.duplicate())
        };
        Effect::Query(cmd, Query::BookmarkForget { include_remotes })
    }

    /// Asks for the bookmarks, to rename one.
    pub fn jj_bookmark_rename(&self) -> (effect: Effect)
        ensures
            is_query(effect, JjCommand::bookmark_list_spec(self.global_args@), QueryView::BookmarkRename),
    {
        Effect::Query(JjCommand::bookmark_list(self.global_args.duplicate()), Query::BookmarkRename)
    }

    /// Whether `after` and `effect` are what [`Model::jj_bookmark_set`] makes of `before`.
    pub open spec fn jj_bookmark_set_result(before: Model, effect: Effect, after: Model) -> bool {
        &&& (before.selected_change_id().is_some() ==> after == before && is_query(
            effect,
            JjCommand::bookmark_list_spec(before.global_args@),
            QueryView::BookmarkSet,
            ))
        &&& (before.selected_change_id().is_none() ==> effect is Nothing && invalid_selection_shown(
            before,
            after,
            ))
    }

    /// Asks for the bookmarks, to point one at the selection; without a
    /// selection that is reported instead.
    pub fn jj_bookmark_set(&mut self) -> (effect: Effect)
        ensures
            Self::jj_bookmark_set_result(*old(self), effect, *final(self)),
    {
        if self.get_selected_change_id().is_none() {
            self.invalid_selection();
            return Effect::Nothing;
        }
        Effect::Query(JjCommand::bookmark_list(self.global_args.duplicate()), Query::BookmarkSet)
    }

    fn remote_bookmarks_query(&self) -> (cmd: JjCommand)
        ensures
            cmd@ == JjCommand::bookmark_list_with_args_spec(
                seq!["bookmark"@, "list"@, "--all-remotes"@],
                self.global_args@,
            ),
    {
        let args: [&str; 3] = ["bookmark", "list", "--all-remotes"];
        assert(list_args(args@) =~= seq!["bookmark"@, "list"@, "--all-remotes"@]);
        JjCommand::bookmark_list_with_args(args.as_slice(), self.global_args.duplicate())
    }

    /// Asks for the bookmarks of the remotes, to track one.
    pub fn jj_bookmark_track(&self) -> (effect: Effect)
        ensures
            is_query(
                effect,
                JjCommand::bookmark_list_with_args_spec(
                    seq!["bookmark"@, "list"@, "--all-remotes"@],
                    self.global_args@,
                ),
                QueryView::BookmarkTrack,
            ),
    {
        Effect::Query(self.remote_bookmarks_query(), Query::BookmarkTrack)
    }

    /// Asks for the bookmarks of the remotes, to stop tracking one.
    pub fn jj_bookmark_untrack(&self) -> (effect: Effect)
        ensures
            is_query(
                effect,
                JjCommand::bookmark_list_with_args_spec(
                    seq!["bookmark"@, "list"@, "--all-remotes"@],
                    self.global_args@,
                ),
                QueryView::BookmarkUntrack,
            ),
    {
        Effect::Query(self.remote_bookmarks_query(), Query::BookmarkUntrack)
    }

    /// Asks for the files that are not tracked, to track one.
    pub fn jj_file_track(&self) -> (effect: Effect)
        ensures
            is_query(effect, JjCommand::file_list_untracked_spec(self.global_args@), QueryView::FileTrack),
    {
        Effect::Query(JjCommand::file_list_untracked(self.global_args.duplicate()), Query::FileTrack)
    }

    /// Asks for the workspaces, to forget one.
    pub fn jj_workspace_forget(&self) -> (effect: Effect)
        ensures
            is_query(effect, JjCommand::workspace_list_spec(self.global_args@), QueryView::WorkspaceForget),
    {
        Effect::Query(JjCommand::workspace_list(self.global_args.duplicate()), Query::WorkspaceForget)
    }

    /// Asks for the workspaces, to update a stale one.
    pub fn jj_workspace_update_stale_start(&self) -> (effect: Effect)
        ensures
            is_query(
                effect,
                JjCommand::workspace_list_spec(self.global_args@),
                QueryView::WorkspaceUpdateStale,
            ),
    {
        Effect::Query(JjCommand::workspace_list(self.global_args.duplicate()), Query::WorkspaceUpdateStale)
    }

    /// Asks for the bookmarks that a tug would move, to push them after it.
    pub fn jj_tug_and_git_push(&self) -> (effect: Effect)
        ensures
            is_query(
                effect,
                JjCommand::bookmark_list_with_args_spec(
                    seq![
                        "bookmark"@,
                        "list"@,
                        "-r"@,
                        "heads(::@- & bookmarks())"@,
                        "-T"@,
                        "name"@,
                    ],
                    self.global_args@,
                ),
                QueryView::TugAndGitPush,
            ),
    {
        let args: [&str; 6] = ["bookmark", "list", "-r", "heads(::@- & bookmarks())", "-T", "name"];
        assert(list_args(args@) =~= seq![
            "bookmark"@,
            "list"@,
            "-r"@,
            "heads(::@- & bookmarks())"@,
            "-T"@,
            "name"@,
        ]);
        Effect::Query(
            JjCommand::bookmark_list_with_args(args.as_slice(), self.global_args.duplicate()),
            Query::TugAndGitPush,
        )
    }

    /// What a fetch does at once, if anything.
    pub open spec fn git_fetch_command(&self, mode: GitFetchMode) -> Option<JjCommandView> {
        match mode {
            GitFetchMode::Default => Some(JjCommand::git_fetch_spec(None, None, self.global_args@)),
            GitFetchMode::AllRemotes => Some(
                JjCommand::git_fetch_spec(Some("--all-remotes"@), None, self.global_args@),
            ),
            GitFetchMode::TrackedBookmarks => Some(
                JjCommand::git_fetch_spec(Some("--tracked"@), None, self.global_args@),
            ),
            _ => None,
        }
    }

    /// Whether `after` and `effect` are what [`Model::jj_git_fetch`] makes of `before`.
    pub open spec fn jj_git_fetch_result(
        before: Model,
        mode: GitFetchMode,
        effect: Effect,
        after: Model,
    ) -> bool {
        &&& (match before.git_fetch_command(mode) {
            Some(cmd) => effect is Nothing && queued(before, seq![cmd], after),
            None => after == before && is_query(
                effect,
                JjCommand::git_remote_list_spec(before.global_args@),
                QueryView::GitFetchRemotes { select_for_branches: mode == GitFetchMode::Branch },
            ),
            })
    }

    /// Fetches at once, or asks for the remotes first, to fetch from one of
    /// them or a branch of it.
    pub fn jj_git_fetch(&mut self, mode: GitFetchMode) -> (effect: Effect)
        ensures
            Self::jj_git_fetch_result(*old(self), mode, effect, *final(self)),
    {
        let flag = match mode {
            GitFetchMode::Default => None,
            GitFetchMode::AllRemotes => Some("--all-remotes"),
            GitFetchMode::TrackedBookmarks => Some("--tracked"),
            GitFetchMode::Branch => {
                return Effect::Query(
                    JjCommand::git_remote_list(self.global_args.duplicate()),
                    Query::GitFetchRemotes { select_for_branches: true },
                );
            },
            GitFetchMode::Remote => {
                return Effect::Query(
                    JjCommand::git_remote_list(self.global_args.duplicate()),
                    Query::GitFetchRemotes { select_for_branches: false },
                );
            },
        };
        let cmd = JjCommand::git_fetch(flag, None, self.global_args.duplicate());
        self.queue_jj_command(cmd);
        Effect::Nothing
    }

    /// Whether `after` and `effect` are what [`Model::jj_git_push`] makes of `before`.
    pub open spec fn jj_git_push_result(
        before: Model,
        mode: GitPushMode,
        effect: Effect,
        after: Model,
    ) -> bool {
        &&& (match mode {
            GitPushMode::Default => effect is Nothing && queued(
                before,
                seq![JjCommand::git_push_spec(None, None, before.global_args@)],
                after,
            ),
            GitPushMode::All => effect is Nothing && queued(
                before,
                seq![JjCommand::git_push_spec(Some("--all"@), None, before.global_args@)],
                after,
            ),
            GitPushMode::TrackedBookmarks => effect is Nothing && queued(
                before,
                seq![JjCommand::git_push_spec(Some("--tracked"@), None, before.global_args@)],
                after,
            ),
            GitPushMode::Deleted => effect is Nothing && queued(
                before,
                seq![JjCommand::git_push_spec(Some("--deleted"@), None, before.global_args@)],
                after,
            ),
            GitPushMode::Revision => effect is Nothing && queued_or_invalid(
                before,
                match before.selected_change_id() {
                    Some(id) => Some(
                        JjCommand::git_push_spec(Some("-r"@), Some(id), before.global_args@),
                    ),
                    None => None,
                },
                after,
            ),
            GitPushMode::Change => effect is Nothing && queued_or_invalid(
                before,
                match before.selected_change_id() {
                    Some(id) => Some(
                        JjCommand::git_push_spec(Some("-c"@), Some(id), before.global_args@),
                    ),
                    None => None,
                },
                after,
            ),
            GitPushMode::Named => match before.selected_change_id() {
                Some(id) => after == before && is_query(
                    effect,
                    JjCommand::bookmark_list_spec(before.global_args@),
                    QueryView::GitPushBookmark { named: true, change_id: id },
                ),
                None => effect is Nothing && invalid_selection_shown(before, after),
            },
            GitPushMode::Bookmark => after == before && is_query(
                effect,
                JjCommand::bookmark_list_spec(before.global_args@),
                QueryView::GitPushBookmark { named: false, change_id: Seq::empty() },
            ),
            })
    }

    /// Pushes at once, or asks for the bookmarks first, to push one of them
    /// or to name a new one.
    pub fn jj_git_push(&mut self, mode: GitPushMode) -> (effect: Effect)
        ensures
            Self::jj_git_push_result(*old(self), mode, effect, *final(self)),
    {
        let selected = self.selected_change_id_owned();
        match mode {
            GitPushMode::Default => {
                let cmd = JjCommand::git_push(None, None, self.global_args.duplicate());
                self.queue_jj_command(cmd);
            },
            GitPushMode::All => {
                let cmd = JjCommand::git_push(Some("--all"), None, self.global_args.duplicate());
                self.queue_jj_command(cmd);
            },
            GitPushMode::TrackedBookmarks => {
                let cmd = JjCommand::git_push(Some("--tracked"), None, self.global_args.duplicate());
                self.queue_jj_command(cmd);
            },
            GitPushMode::Deleted => {
                let cmd = JjCommand::git_push(Some("--deleted"), None, self.global_args.duplicate());
                self.queue_jj_command(cmd);
            },
            GitPushMode::Revision => {
                let cmd = match &selected {
                    Some(id) => Some(
                        JjCommand::git_push(Some("-r"), Some(id.as_str()), self.global_args.duplicate()),
                    ),
                    None => None,
                };
                self.queue_or_invalid(cmd);
            },
            GitPushMode::Change => {
                let cmd = match &selected {
                    Some(id) => Some(
                        JjCommand::git_push(Some("-c"), Some(id.as_str()), self.global_args.duplicate()),
                    ),
                    None => None,
                };
                self.queue_or_invalid(cmd);
            },
            GitPushMode::Named => {
                match selected {
                    Some(change_id) => {
                        return Effect::Query(
                            JjCommand::bookmark_list(self.global_args.duplicate()),
                            Query::GitPushBookmark { named: true, change_id },
                        );
                    },
                    None => {
                        self.invalid_selection();
                    },
                }
            },
            GitPushMode::Bookmark => {
                return Effect::Query(
                    JjCommand::bookmark_list(self.global_args.duplicate()),
                    Query::GitPushBookmark { named: false, change_id: String::new() },
                );
            },
        }
        Effect::Nothing
    }

    /// Takes the output of a query. Where it lists nothing, that is said;
    /// else the popup for the query opens on what it lists, or, for a tug
    /// with a push, the invocations are queued.
    pub fn query_finished(&mut self, query: Query, output: &str)
        ensures
            ({
                let names = listed_names(output@, query_kind(query@));
                if names.len() == 0 {
                    match empty_message(query@) {
                        Some(message) => message_shown(*old(self), message, *final(self)),
                        None => *final(self) == *old(self),
                    }
                } else if query is TugAndGitPush {
                    queued(*old(self), tug_and_push_commands(names, old(self).global_args@), *final(self))
                } else {
                    final(self).current_popup.is_some() && is_query_popup(
                        query@,
                        names,
                        final(self).current_popup.unwrap(),
                    ) && popup_opened(*old(self), final(self).current_popup.unwrap(), *final(self))
                }
            }),
    {
        let kind = match &query {
            Query::BookmarkUntrack => ListKind::TrackedBookmarks,
            Query::FileTrack => ListKind::Paths,
            Query::GitFetchRemotes { .. } => ListKind::Remotes,
            Query::GitFetchBranches { .. } => ListKind::NamedBookmarks,
            Query::TugAndGitPush => ListKind::Plain,
            Query::WorkspaceForget => ListKind::Workspaces,
            Query::WorkspaceUpdateStale => ListKind::Workspaces,
            _ => ListKind::Bookmarks,
        };
        let names = parse_listing(output, kind);
        if names.len() == 0 {
            match &query {
                Query::BookmarkDelete => self.show_message("No bookmarks to delete"),
                Query::BookmarkForget { include_remotes } => if *include_remotes {
                    self.show_message("No bookmarks to forget (including remotes)")
                } else {
                    self.show_message("No bookmarks to forget")
                },
                Query::BookmarkRename => {},
                Query::BookmarkSet => self.show_message("No bookmarks to set"),
                Query::BookmarkTrack => self.show_message("No remote bookmarks to track"),
                Query::BookmarkUntrack => self.show_message("No tracked remote bookmarks to untrack"),
                Query::FileTrack => self.show_message("No untracked files to track"),
                Query::GitFetchRemotes { .. } => self.show_message("No remotes configured"),
                Query::GitFetchBranches { remote } => {
                    let message = joined("No branches found on remote '", remote.as_str(), "'");
                    self.show_message(message.as_str())
                },
                Query::GitPushBookmark { .. } => self.show_message("No bookmarks to push"),
                Query::TugAndGitPush => self.show_message("No bookmarks to tug and push"),
                Query::WorkspaceForget => self.show_message("No workspaces to forget"),
                Query::WorkspaceUpdateStale => self.show_message("No workspaces to update"),
            }
            return ;
        }
        let popup = match query {
            Query::BookmarkDelete => Popup::BookmarkDelete { bookmarks: names },
            Query::BookmarkForget { include_remotes } => Popup::BookmarkForget {
                bookmarks: names,
                include_remotes,
            },
            Query::BookmarkRename => Popup::BookmarkRenameSelect { bookmarks: names },
            Query::BookmarkSet => Popup::BookmarkSet { bookmarks: names },
            Query::BookmarkTrack => Popup::BookmarkTrack { remote_bookmarks: names },
            Query::BookmarkUntrack => Popup::BookmarkUntrack { tracked_bookmarks: names },
            Query::FileTrack => Popup::FileTrack { untracked_files: names },
            Query::GitFetchRemotes { select_for_branches } => Popup::GitFetchRemote {
                remotes: names,
                select_for_branches,
            },
            Query::GitFetchBranches { remote } => Popup::GitFetchRemoteBranches { remote, branches: names },
            Query::GitPushBookmark { named, change_id } => Popup::GitPushBookmark {
                bookmarks: names,
                change_id,
                is_named_mode: named,
            },
            Query::TugAndGitPush => {
                let ghost listed = strings_view(names@);
                let ghost want = tug_and_push_commands(listed, self.global_args@);
                let tug_cmd = JjCommand::tug(self.global_args.duplicate());
                let mut cmds: Vec<JjCommand> = Vec::new();
                cmds.push(tug_cmd);
                let mut i: usize = 0;
                assert(commands_view(cmds@) =~= want.take(1));
                while i < names.len()
                    invariant
                        i <= names.len(),
                        listed == strings_view(names@),
                        want == tug_and_push_commands(listed, self.global_args@),
                        commands_view(cmds@) == want.take(i + 1),
                    decreases names.len() - i,
                {
                    let push_cmd = JjCommand::git_push(
                        Some("-b"),
                        Some(names[i].as_str()),
                        self.global_args.duplicate(),
                    );
                    let ghost before = commands_view(cmds@);
                    cmds.push(push_cmd);
                    proof {
                        assert(commands_view(cmds@) =~= before.push(push_cmd@));
                        assert(want[i + 1] == JjCommand::git_push_spec(
                            Some("-b"@),
                            Some(listed[i as int]),
                            self.global_args@,
                        ));
                        assert(want.take(i + 2) =~= want.take(i + 1).push(want[i + 1]));
                    }
                    i = i + 1;
                }
                assert(want.take(names.len() + 1) =~= want);
                self.queue_jj_commands(cmds);
                return ;
            },
            Query::WorkspaceForget => Popup::WorkspaceForget { workspaces: names },
            Query::WorkspaceUpdateStale => Popup::WorkspaceUpdateStale { workspaces: names },
        };
        self.open_popup(popup);
    }
}

} // verus!
