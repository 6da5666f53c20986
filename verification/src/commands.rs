//! The commands of the model that turn the selection into invocations of the
//! engine. A command whose selection does not fit reports that and changes
//! nothing else.

use vstd::prelude::*;
use vstd::string::*;
use crate::model::{invalid_selection_shown, queued, Model};
use crate::shell_out::{commands_view, opt_string_view, opt_str_view, JjCommand, JjCommandView};
use crate::update::{
    AbandonMode, AbsorbMode, BookmarkMoveMode, DuplicateDestination, DuplicateDestinationType,
    InterdiffMode, NewMode, NextPrevDirection, NextPrevMode, RebaseDestination,
    RebaseDestinationType, RebaseSourceType, RestoreMode, RevertDestination, RevertDestinationType,
    RevertRevision, SignAction, SimplifyParentsMode, SquashMode, ViewMode,
};

verus! {

broadcast use vstd::string::group_string_axioms;

/// Whether `after` is `before` with the invocation queued, or, without an
/// invocation, with the message that the selection does not fit.
pub open spec fn queued_or_invalid(before: Model, cmd: Option<JjCommandView>, after: Model) -> bool {
    match cmd {
        Some(c) => queued(before, seq![c], after),
        None => invalid_selection_shown(before, after),
    }
}

/// An invocation that may be absent, as a mathematical value.
pub open spec fn opt_command_view(cmd: Option<JjCommand>) -> Option<JjCommandView> {
    match cmd {
        Some(c) => Some(c@),
        None => None,
    }
}

/// An owned string that may be absent, borrowed.
pub fn opt_as_str(value: &Option<String>) -> (r: Option<&str>)
    ensures
        opt_str_view(r) == opt_string_view(*value),
{
    match value {
        Some(s) => Some(s.as_str()),
        None => None,
    }
}

/// A borrowed string that may be absent, copied.
pub fn opt_to_owned(value: Option<&String>) -> (r: Option<String>)
    ensures
        r.is_some() == value.is_some(),
        r.is_some() ==> r.unwrap()@ == value.unwrap()@,
{
    match value {
        Some(s) => Some(s.clone()),
        None => None,
    }
}

/// The two strings with `between` between them.
pub fn joined(first: &str, between: &str, second: &str) -> (r: String)
    ensures
        r@ == first@ + between@ + second@,
{
    let mut r = String::from_str(first);
    r.append(between);
    r.append(second);
    r
}

pub open spec fn abandon_flag(mode: AbandonMode) -> Option<Seq<char>> {
    match mode {
        AbandonMode::Default => None,
        AbandonMode::RetainBookmarks => Some("--retain-bookmarks"@),
        AbandonMode::RestoreDescendants => Some("--restore-descendants"@),
    }
}

pub open spec fn duplicate_flag(destination_type: DuplicateDestinationType) -> Option<Seq<char>> {
    match destination_type {
        DuplicateDestinationType::Default => None,
        DuplicateDestinationType::Onto => Some("--onto"@),
        DuplicateDestinationType::InsertAfter => Some("--insert-after"@),
        DuplicateDestinationType::InsertBefore => Some("--insert-before"@),
    }
}

pub open spec fn next_prev_flag(mode: NextPrevMode) -> Option<Seq<char>> {
    match mode {
        NextPrevMode::Conflict => Some("--conflict"@),
        NextPrevMode::Default => None,
        NextPrevMode::Edit => Some("--edit"@),
        NextPrevMode::NoEdit => Some("--no-edit"@),
    }
}

pub open spec fn next_prev_name(direction: NextPrevDirection) -> Seq<char> {
    match direction {
        NextPrevDirection::Next => "next"@,
        NextPrevDirection::Prev => "prev"@,
    }
}

pub open spec fn rebase_source_flag(source_type: RebaseSourceType) -> Seq<char> {
    match source_type {
        RebaseSourceType::Branch => "--branch"@,
        RebaseSourceType::Source => "--source"@,
        RebaseSourceType::Revisions => "--revisions"@,
    }
}

pub open spec fn rebase_destination_flag(destination_type: RebaseDestinationType) -> Seq<char> {
    match destination_type {
        RebaseDestinationType::InsertAfter => "--insert-after"@,
        RebaseDestinationType::InsertBefore => "--insert-before"@,
        RebaseDestinationType::Onto => "--onto"@,
    }
}

pub open spec fn revert_destination_flag(destination_type: RevertDestinationType) -> Seq<char> {
    match destination_type {
        RevertDestinationType::Onto => "--onto"@,
        RevertDestinationType::InsertAfter => "--insert-after"@,
        RevertDestinationType::InsertBefore => "--insert-before"@,
    }
}

pub open spec fn sign_name(action: SignAction) -> Seq<char> {
    match action {
        SignAction::Sign => "sign"@,
        SignAction::Unsign => "unsign"@,
    }
}

pub open spec fn simplify_parents_flag(mode: SimplifyParentsMode) -> Seq<char> {
    match mode {
        SimplifyParentsMode::Revisions => "-r"@,
        SimplifyParentsMode::Source => "-s"@,
    }
}

pub fn next_prev_mode_flag(mode: NextPrevMode) -> (r: Option<&'static str>)
    ensures
        opt_str_view(r) == next_prev_flag(mode),
{
    match mode {
        NextPrevMode::Conflict => Some("--conflict"),
        NextPrevMode::Default => None,
        NextPrevMode::Edit => Some("--edit"),
        NextPrevMode::NoEdit => Some("--no-edit"),
    }
}

pub fn next_prev_direction_name(direction: NextPrevDirection) -> (r: &'static str)
    ensures
        r@ == next_prev_name(direction),
{
    match direction {
        NextPrevDirection::Next => "next",
        NextPrevDirection::Prev => "prev",
    }
}

impl Model {
    /// The saved change id as a mathematical value.
    pub open spec fn saved_change(&self) -> Option<Seq<char>> {
        opt_string_view(self.saved_change_id)
    }

    /// The saved file path as a mathematical value.
    pub open spec fn saved_file(&self) -> Option<Seq<char>> {
        opt_string_view(self.saved_file_path)
    }

    /// Queues the invocation, or reports that the selection does not fit
    /// where there is none.
    pub fn queue_or_invalid(&mut self, cmd: Option<JjCommand>)
        ensures
            queued_or_invalid(*old(self), opt_command_view(cmd), *final(self)),
    {
        match cmd {
            Some(c) => self.queue_jj_command(c),
            None => self.invalid_selection(),
        }
    }

    /// A copy of the change id under the cursor.
    pub fn selected_change_id_owned(&self) -> (r: Option<String>)
        ensures
            opt_string_view(r) == self.selected_change_id(),
    {
        opt_to_owned(self.get_selected_change_id())
    }

    /// A copy of the file path under the cursor.
    pub fn selected_file_path_owned(&self) -> (r: Option<String>)
        ensures
            opt_string_view(r) == self.selected_file_path(),
    {
        opt_to_owned(self.get_selected_file_path())
    }

    pub open spec fn abandon_command(&self, mode: AbandonMode) -> Option<JjCommandView> {
        match self.selected_change_id() {
            Some(id) => Some(JjCommand::abandon_spec(id, abandon_flag(mode), self.global_args@)),
            None => None,
        }
    }

    pub fn jj_abandon(&mut self, mode: AbandonMode)
        ensures
            queued_or_invalid(*old(self), old(self).abandon_command(mode), *final(self)),
    {
        let cmd = match self.get_selected_change_id() {
            Some(change_id) => {
                let flag = match mode {
                    AbandonMode::Default => None,
                    AbandonMode::RetainBookmarks => Some("--retain-bookmarks"),
                    AbandonMode::RestoreDescendants => Some("--restore-descendants"),
                };
                Some(JjCommand::abandon(change_id.as_str(), flag, self.global_args.duplicate()))
            },
            None => None,
        };
        self.queue_or_invalid(cmd)
    }

    pub open spec fn absorb_command(&self, mode: AbsorbMode) -> Option<JjCommandView> {
        match mode {
            AbsorbMode::Default => match self.selected_change_id() {
                Some(from) => Some(
                    JjCommand::absorb_spec(from, None, self.selected_file_path(), self.global_args@),
                ),
                None => None,
            },
            AbsorbMode::Into => match (self.saved_change(), self.selected_change_id()) {
                (Some(from), Some(into)) => Some(
                    JjCommand::absorb_spec(from, Some(into), self.saved_file(), self.global_args@),
                ),
                _ => None,
            },
        }
    }

    pub fn jj_absorb(&mut self, mode: AbsorbMode)
        ensures
            queued_or_invalid(*old(self), old(self).absorb_command(mode), *final(self)),
    {
        let selected = self.get_selected_change_id();
        let cmd = match mode {
            AbsorbMode::Default => match selected {
                Some(from) => {
                    let file = self.selected_file_path_owned();
                    Some(
                        JjCommand::absorb(
                            from.as_str(),
                            None,
                            opt_as_str(&file),
                            self.global_args.duplicate(),
                        ),
                    )
                },
                None => None,
            },
            AbsorbMode::Into => match (self.get_saved_change_id(), selected) {
                (Some(from), Some(into)) => Some(
                    JjCommand::absorb(
                        from.as_str(),
                        Some(into.as_str()),
                        opt_as_str(&self.saved_file_path),
                        self.global_args.duplicate(),
                    ),
                ),
                _ => None,
            },
        };
        self.queue_or_invalid(cmd)
    }

    pub open spec fn bookmark_move_command(&self, mode: BookmarkMoveMode) -> Option<JjCommandView> {
        match mode {
            BookmarkMoveMode::Default | BookmarkMoveMode::AllowBackwards => match (
                self.saved_change(),
                self.selected_change_id(),
            ) {
                (Some(from), Some(to)) => Some(
                    JjCommand::bookmark_move_spec(
                        from,
                        to,
                        mode == BookmarkMoveMode::AllowBackwards,
                        self.global_args@,
                    ),
                ),
                _ => None,
            },
            BookmarkMoveMode::Tug => match self.selected_change_id() {
                Some(to) => Some(
                    JjCommand::bookmark_move_spec(
                        "heads(::@- & bookmarks())"@,
                        to,
                        false,
                        self.global_args@,
                    ),
                ),
                None => None,
            },
        }
    }

    pub fn jj_bookmark_move(&mut self, mode: BookmarkMoveMode)
        ensures
            queued_or_invalid(*old(self), old(self).bookmark_move_command(mode), *final(self)),
    {
        let selected = self.get_selected_change_id();
        let cmd = match mode {
            BookmarkMoveMode::Default => match (self.get_saved_change_id(), selected) {
                (Some(from), Some(to)) => Some(
                    JjCommand::bookmark_move(from.as_str(), to.as_str(), false, self.global_args.duplicate()),
                ),
                _ => None,
            },
            BookmarkMoveMode::AllowBackwards => match (self.get_saved_change_id(), selected) {
                (Some(from), Some(to)) => Some(
                    JjCommand::bookmark_move(from.as_str(), to.as_str(), true, self.global_args.duplicate()),
                ),
                _ => None,
            },
            BookmarkMoveMode::Tug => match selected {
                Some(to) => Some(
                    JjCommand::bookmark_move(
                        "heads(::@- & bookmarks())",
                        to.as_str(),
                        false,
                        self.global_args.duplicate(),
                    ),
                ),
                None => None,
            },
        };
        self.queue_or_invalid(cmd)
    }

    pub fn jj_commit(&mut self)
        ensures
            queued(
                *old(self),
                seq![JjCommand::commit_spec(old(self).selected_file_path(), old(self).global_args@)],
                *final(self),
            ),
    {
        let file = self.selected_file_path_owned();
        let cmd = JjCommand::commit(opt_as_str(&file), self.global_args.duplicate());
        self.queue_jj_command(cmd)
    }

    pub open spec fn duplicate_command(
        &self,
        destination_type: DuplicateDestinationType,
        destination: DuplicateDestination,
    ) -> Option<JjCommandView> {
        let source = if destination_type == DuplicateDestinationType::Default {
            self.selected_change_id()
        } else {
            self.saved_change()
        };
        match source {
            Some(id) => match destination {
                DuplicateDestination::Default => Some(
                    JjCommand::duplicate_spec(id, duplicate_flag(destination_type), None, self.global_args@),
                ),
                DuplicateDestination::Selection => match self.selected_change_id() {
                    Some(dest) => Some(
                        JjCommand::duplicate_spec(
                            id,
                            duplicate_flag(destination_type),
                            Some(dest),
                            self.global_args@,
                        ),
                    ),
                    None => None,
                },
            },
            None => None,
        }
    }

    pub fn jj_duplicate(
        &mut self,
        destination_type: DuplicateDestinationType,
        destination: DuplicateDestination,
    )
        ensures
            queued_or_invalid(
                *old(self),
                old(self).duplicate_command(destination_type, destination),
                *final(self),
            ),
    {
        let flag = match destination_type {
            DuplicateDestinationType::Default => None,
            DuplicateDestinationType::Onto => Some("--onto"),
            DuplicateDestinationType::InsertAfter => Some("--insert-after"),
            DuplicateDestinationType::InsertBefore => Some("--insert-before"),
        };
        let selected = self.get_selected_change_id();
        let source = if flag.is_some() {
            self.get_saved_change_id()
        } else {
            selected
        };
        let cmd = match source {
            Some(id) => match destination {
                DuplicateDestination::Default => Some(
                    JjCommand::duplicate(id.as_str(), flag, None, self.global_args.duplicate()),
                ),
                DuplicateDestination::Selection => match selected {
                    Some(dest) => Some(
                        JjCommand::duplicate(
                            id.as_str(),
                            flag,
                            Some(dest.as_str()),
                            self.global_args.duplicate(),
                        ),
                    ),
                    None => None,
                },
            },
            None => None,
        };
        self.queue_or_invalid(cmd)
    }

    pub open spec fn edit_command(&self) -> Option<JjCommandView> {
        match self.selected_change_id() {
            Some(id) => Some(JjCommand::edit_spec(id, self.global_args@)),
            None => None,
        }
    }

    pub fn jj_edit(&mut self)
        ensures
            queued_or_invalid(*old(self), old(self).edit_command(), *final(self)),
    {
        let cmd = match self.get_selected_change_id() {
            Some(id) => Some(JjCommand::edit(id.as_str(), self.global_args.duplicate())),
            None => None,
        };
        self.queue_or_invalid(cmd)
    }

    pub open spec fn evolog_command(&self, patch: bool) -> Option<JjCommandView> {
        match self.selected_change_id() {
            Some(id) => Some(JjCommand::evolog_spec(id, patch, self.global_args@)),
            None => None,
        }
    }

    pub fn jj_evolog(&mut self, patch: bool)
        ensures
            queued_or_invalid(*old(self), old(self).evolog_command(patch), *final(self)),
    {
        let cmd = match self.get_selected_change_id() {
            Some(id) => Some(JjCommand::evolog(id.as_str(), patch, self.global_args.duplicate())),
            None => None,
        };
        self.queue_or_invalid(cmd)
    }

    /// Whether the cursor is in the commit of the working copy.
    pub open spec fn cursor_in_working_copy(&self) -> bool {
        match self.selected_position() {
            Some(pos) => match self.commit_at(pos) {
                Some(n) => n.kind matches crate::log_tree::KindView::Commit { current_working_copy, .. }
                    && current_working_copy,
                None => false,
            },
            None => false,
        }
    }

    /// The file under the cursor can be untracked where the cursor is in the
    /// commit of the working copy.
    pub open spec fn file_untrack_command(&self) -> Option<JjCommandView> {
        match self.selected_file_path() {
            Some(path) => if self.cursor_in_working_copy() {
                Some(JjCommand::file_untrack_spec(path, self.global_args@))
            } else {
                None
            },
            None => None,
        }
    }

    pub fn jj_file_untrack(&mut self)
        ensures
            queued_or_invalid(*old(self), old(self).file_untrack_command(), *final(self)),
    {
        let working_copy = self.is_selected_working_copy();
        let cmd = match self.get_selected_file_path() {
            Some(path) => if working_copy {
                Some(JjCommand::file_untrack(path.as_str(), self.global_args.duplicate()))
            } else {
                None
            },
            None => None,
        };
        self.queue_or_invalid(cmd);
    }

    pub open spec fn interdiff_command(&self, mode: InterdiffMode) -> Option<JjCommandView> {
        match mode {
            InterdiffMode::FromSelection => match self.selected_change_id() {
                Some(from) => Some(
                    JjCommand::interdiff_spec(from, "@"@, self.selected_file_path(), self.global_args@),
                ),
                None => None,
            },
            InterdiffMode::FromSelectionToDestination => match (
                self.saved_change(),
                self.selected_change_id(),
            ) {
                (Some(from), Some(to)) => Some(
                    JjCommand::interdiff_spec(from, to, self.saved_file(), self.global_args@),
                ),
                _ => None,
            },
            InterdiffMode::ToSelection => match self.selected_change_id() {
                Some(to) => Some(
                    JjCommand::interdiff_spec("@"@, to, self.selected_file_path(), self.global_args@),
                ),
                None => None,
            },
        }
    }

    pub fn jj_interdiff(&mut self, mode: InterdiffMode)
        ensures
            queued_or_invalid(*old(self), old(self).interdiff_command(mode), *final(self)),
    {
        let selected = self.get_selected_change_id();
        let file = self.selected_file_path_owned();
        let cmd = match mode {
            InterdiffMode::FromSelection => match selected {
                Some(from) => Some(
                    JjCommand::interdiff(from.as_str(), "@", opt_as_str(&file), self.global_args.duplicate()),
                ),
                None => None,
            },
            InterdiffMode::FromSelectionToDestination => match (self.get_saved_change_id(), selected) {
                (Some(from), Some(to)) => Some(
                    JjCommand::interdiff(
                        from.as_str(),
                        to.as_str(),
                        opt_as_str(&self.saved_file_path),
                        self.global_args.duplicate(),
                    ),
                ),
                _ => None,
            },
            InterdiffMode::ToSelection => match selected {
                Some(to) => Some(
                    JjCommand::interdiff("@", to.as_str(), opt_as_str(&file), self.global_args.duplicate()),
                ),
                None => None,
            },
        };
        self.queue_or_invalid(cmd)
    }

    pub open spec fn new_command(&self, mode: NewMode) -> Option<JjCommandView> {
        match mode {
            NewMode::AfterTrunk => Some(JjCommand::new_spec("trunk()"@, Seq::empty(), self.global_args@)),
            _ => match self.selected_change_id() {
                Some(id) => Some(
                    JjCommand::new_spec(
                        id,
                        match mode {
                            NewMode::Before => seq!["--no-edit"@, "--insert-before"@],
                            NewMode::InsertAfter => seq!["--insert-after"@],
                            _ => Seq::empty(),
                        },
                        self.global_args@,
                    ),
                ),
                None => None,
            },
        }
    }

    pub fn jj_new(&mut self, mode: NewMode)
        ensures
            queued_or_invalid(*old(self), old(self).new_command(mode), *final(self)),
    {
        let selected = self.get_selected_change_id();
        let none: [&str; 0] = [];
        let before: [&str; 2] = ["--no-edit", "--insert-before"];
        let after: [&str; 1] = ["--insert-after"];
        proof {
            assert(crate::shell_out::list_args(none@) =~= Seq::empty());
            assert(crate::shell_out::list_args(before@) =~= seq!["--no-edit"@, "--insert-before"@]);
            assert(crate::shell_out::list_args(after@) =~= seq!["--insert-after"@]);
        }
        let cmd = match mode {
            NewMode::AfterTrunk => Some(
                JjCommand::new("trunk()", none.as_slice(), self.global_args.duplicate()),
            ),
            NewMode::Default => match selected {
                Some(id) => Some(JjCommand::new(id.as_str(), none.as_slice(), self.global_args.duplicate())),
                None => None,
            },
            NewMode::Before => match selected {
                Some(id) => Some(
                    JjCommand::new(id.as_str(), before.as_slice(), self.global_args.duplicate()),
                ),
                None => None,
            },
            NewMode::InsertAfter => match selected {
                Some(id) => Some(JjCommand::new(id.as_str(), after.as_slice(), self.global_args.duplicate())),
                None => None,
            },
        };
        self.queue_or_invalid(cmd)
    }

    /// Fetches, then creates a change on the trunk.
    pub fn jj_new_after_trunk_sync(&mut self)
        ensures
            queued(
                *old(self),
                seq![
                    JjCommand::git_fetch_spec(None, None, old(self).global_args@),
                    JjCommand::new_spec("trunk()"@, Seq::empty(), old(self).global_args@),
                ],
                *final(self),
            ),
    {
        let none: [&str; 0] = [];
        assert(crate::shell_out::list_args(none@) =~= Seq::empty());
        let fetch_cmd = JjCommand::git_fetch(None, None, self.global_args.duplicate());
        let new_cmd = JjCommand::new("trunk()", none.as_slice(), self.global_args.duplicate());
        let mut cmds: Vec<JjCommand> = Vec::new();
        cmds.push(fetch_cmd);
        cmds.push(new_cmd);
        assert(commands_view(cmds@) =~= seq![fetch_cmd@, new_cmd@]);
        self.queue_jj_commands(cmds)
    }

    /// Creates a change on the selection and moves the bookmark along.
    pub fn jj_new_on_branch(&mut self)
        ensures
            match old(self).selected_change_id() {
                Some(id) => queued(
                    *old(self),
                    seq![
                        JjCommand::new_spec(id, Seq::empty(), old(self).global_args@),
                        JjCommand::tug_spec(old(self).global_args@),
                    ],
                    *final(self),
                ),
                None => invalid_selection_shown(*old(self), *final(self)),
            },
    {
        let none: [&str; 0] = [];
        assert(crate::shell_out::list_args(none@) =~= Seq::empty());
        let new_cmd = match self.get_selected_change_id() {
            Some(id) => Some(JjCommand::new(id.as_str(), none.as_slice(), self.global_args.duplicate())),
            None => None,
        };
        match new_cmd {
            Some(new_cmd) => {
                let tug_cmd = JjCommand::tug(self.global_args.duplicate());
                let mut cmds: Vec<JjCommand> = Vec::new();
                cmds.push(new_cmd);
                cmds.push(tug_cmd);
                assert(commands_view(cmds@) =~= seq![new_cmd@, tug_cmd@]);
                self.queue_jj_commands(cmds)
            },
            None => self.invalid_selection(),
        }
    }

    pub open spec fn rebase_command(
        &self,
        source_type: RebaseSourceType,
        destination_type: RebaseDestinationType,
        destination: RebaseDestination,
    ) -> Option<JjCommandView> {
        match self.saved_change() {
            Some(source) => {
                let dest = match destination {
                    RebaseDestination::Selection => self.selected_change_id(),
                    RebaseDestination::Trunk => Some("trunk()"@),
                    RebaseDestination::Current => Some("@"@),
                };
                match dest {
                    Some(d) => Some(
                        JjCommand::rebase_spec(
                            rebase_source_flag(source_type),
                            source,
                            rebase_destination_flag(destination_type),
                            d,
                            self.global_args@,
                        ),
                    ),
                    None => None,
                }
            },
            None => None,
        }
    }

    pub fn jj_rebase(
        &mut self,
        source_type: RebaseSourceType,
        destination_type: RebaseDestinationType,
        destination: RebaseDestination,
    )
        ensures
            queued_or_invalid(
                *old(self),
                old(self).rebase_command(source_type, destination_type, destination),
                *final(self),
            ),
    {
        let source_flag = match source_type {
            RebaseSourceType::Branch => "--branch",
            RebaseSourceType::Source => "--source",
            RebaseSourceType::Revisions => "--revisions",
        };
        let destination_flag = match destination_type {
            RebaseDestinationType::InsertAfter => "--insert-after",
            RebaseDestinationType::InsertBefore => "--insert-before",
            RebaseDestinationType::Onto => "--onto",
        };
        let selected = self.selected_change_id_owned();
        let dest: Option<&str> = match destination {
            RebaseDestination::Selection => opt_as_str(&selected),
            RebaseDestination::Trunk => Some("trunk()"),
            RebaseDestination::Current => Some("@"),
        };
        let cmd = match (self.get_saved_change_id(), dest) {
            (Some(source), Some(d)) => Some(
                JjCommand::rebase(source_flag, source.as_str(), destination_flag, d, self.global_args.duplicate()),
            ),
            _ => None,
        };
        self.queue_or_invalid(cmd)
    }

    pub open spec fn rebase_onto_trunk_command(&self) -> Option<JjCommandView> {
        match self.selected_change_id() {
            Some(id) => Some(
                JjCommand::rebase_spec("--branch"@, id, "--onto"@, "trunk()"@, self.global_args@),
            ),
            None => None,
        }
    }

    pub fn jj_rebase_selected_branch_onto_trunk(&mut self)
        ensures
            queued_or_invalid(*old(self), old(self).rebase_onto_trunk_command(), *final(self)),
    {
        let cmd = match self.get_selected_change_id() {
            Some(id) => Some(
                JjCommand::rebase("--branch", id.as_str(), "--onto", "trunk()", self.global_args.duplicate()),
            ),
            None => None,
        };
        self.queue_or_invalid(cmd)
    }

    /// Fetches, then rebases the branch of the selection onto the trunk.
    pub fn jj_rebase_selected_branch_onto_trunk_sync(&mut self)
        ensures
            match old(self).rebase_onto_trunk_command() {
                Some(rebase) => queued(
                    *old(self),
                    seq![JjCommand::git_fetch_spec(None, None, old(self).global_args@), rebase],
                    *final(self),
                ),
                None => invalid_selection_shown(*old(self), *final(self)),
            },
    {
        let rebase_cmd = match self.get_selected_change_id() {
            Some(id) => Some(
                JjCommand::rebase("--branch", id.as_str(), "--onto", "trunk()", self.global_args.duplicate()),
            ),
            None => None,
        };
        match rebase_cmd {
            Some(rebase_cmd) => {
                let fetch_cmd = JjCommand::git_fetch(None, None, self.global_args.duplicate());
                let mut cmds: Vec<JjCommand> = Vec::new();
                cmds.push(fetch_cmd);
                cmds.push(rebase_cmd);
                assert(commands_view(cmds@) =~= seq![fetch_cmd@, rebase_cmd@]);
                self.queue_jj_commands(cmds)
            },
            None => self.invalid_selection(),
        }
    }

    pub fn jj_redo(&mut self)
        ensures
            queued(*old(self), seq![JjCommand::redo_spec(old(self).global_args@)], *final(self)),
    {
        let cmd = JjCommand::redo(self.global_args.duplicate());
        self.queue_jj_command(cmd)
    }

    pub fn jj_undo(&mut self)
        ensures
            queued(*old(self), seq![JjCommand::undo_spec(old(self).global_args@)], *final(self)),
    {
        let cmd = JjCommand::undo(self.global_args.duplicate());
        self.queue_jj_command(cmd)
    }

    pub fn jj_tug(&mut self)
        ensures
            queued(*old(self), seq![JjCommand::tug_spec(old(self).global_args@)], *final(self)),
    {
        let cmd = JjCommand::tug(self.global_args.duplicate());
        self.queue_jj_command(cmd)
    }

    pub fn jj_status(&mut self)
        ensures
            queued(*old(self), seq![JjCommand::status_spec(old(self).global_args@)], *final(self)),
    {
        let cmd = JjCommand::status(self.global_args.duplicate());
        self.queue_jj_command(cmd)
    }

    pub fn jj_workspace_list(&mut self)
        ensures
            queued(*old(self), seq![JjCommand::workspace_list_spec(old(self).global_args@)], *final(self)),
    {
        let cmd = JjCommand::workspace_list(self.global_args.duplicate());
        self.queue_jj_command(cmd)
    }

    pub fn jj_workspace_root(&mut self)
        ensures
            queued(*old(self), seq![JjCommand::workspace_root_spec(old(self).global_args@)], *final(self)),
    {
        let cmd = JjCommand::workspace_root(self.global_args.duplicate());
        self.queue_jj_command(cmd)
    }

    pub fn jj_workspace_add(&mut self, path: &str)
        ensures
            queued(
                *old(self),
                seq![JjCommand::workspace_add_spec(path@, old(self).global_args@)],
                *final(self),
            ),
    {
        let cmd = JjCommand::workspace_add(path, self.global_args.duplicate());
        self.queue_jj_command(cmd)
    }

    /// The flags of a restore, without the file path.
    pub open spec fn restore_flags(&self, mode: RestoreMode) -> Option<Seq<Seq<char>>> {
        match mode {
            RestoreMode::FromInto => match (self.saved_change(), self.selected_change_id()) {
                (Some(from), Some(into)) => Some(seq!["--from"@, from, "--into"@, into]),
                _ => None,
            },
            _ => match self.selected_change_id() {
                Some(id) => Some(
                    match mode {
                        RestoreMode::ChangesIn => seq!["--changes-in"@, id],
                        RestoreMode::ChangesInRestoreDescendants => seq![
                            "--changes-in"@,
                            id,
                            "--restore-descendants"@,
                        ],
                        RestoreMode::From => seq!["--from"@, id],
                        _ => seq!["--into"@, id],
                    },
                ),
                None => None,
            },
        }
    }

    pub open spec fn restore_command(&self, mode: RestoreMode) -> Option<JjCommandView> {
        match self.restore_flags(mode) {
            Some(flags) => Some(
                JjCommand::restore_spec(
                    flags,
                    if mode == RestoreMode::FromInto {
                        self.saved_file()
                    } else {
                        self.selected_file_path()
                    },
                    self.global_args@,
                ),
            ),
            None => None,
        }
    }

    pub fn jj_restore(&mut self, mode: RestoreMode)
        ensures
            queued_or_invalid(*old(self), old(self).restore_command(mode), *final(self)),
    {
        let selected = self.get_selected_change_id();
        let file = self.selected_file_path_owned();
        let cmd = match mode {
            RestoreMode::FromInto => match (self.get_saved_change_id(), selected) {
                (Some(from), Some(into)) => {
                    let flags: [&str; 4] = ["--from", from.as_str(), "--into", into.as_str()];
                    assert(crate::shell_out::list_args(flags@) =~= seq!["--from"@, from@, "--into"@, into@]);
                    Some(
                        JjCommand::restore(
                            flags.as_slice(),
                            opt_as_str(&self.saved_file_path),
                            self.global_args.duplicate(),
                        ),
                    )
                },
                _ => None,
            },
            RestoreMode::ChangesIn => match selected {
                Some(id) => {
                    let flags: [&str; 2] = ["--changes-in", id.as_str()];
                    assert(crate::shell_out::list_args(flags@) =~= seq!["--changes-in"@, id@]);
                    Some(JjCommand::restore(flags.as_slice(), opt_as_str(&file), self.global_args.duplicate()))
                },
                None => None,
            },
            RestoreMode::ChangesInRestoreDescendants => match selected {
                Some(id) => {
                    let flags: [&str; 3] = ["--changes-in", id.as_str(), "--restore-descendants"];
                    assert(crate::shell_out::list_args(flags@) =~= seq![
                        "--changes-in"@,
                        id@,
                        "--restore-descendants"@,
                    ]);
                    Some(JjCommand::restore(flags.as_slice(), opt_as_str(&file), self.global_args.duplicate()))
                },
                None => None,
            },
            RestoreMode::From => match selected {
                Some(id) => {
                    let flags: [&str; 2] = ["--from", id.as_str()];
                    assert(crate::shell_out::list_args(flags@) =~= seq!["--from"@, id@]);
                    Some(JjCommand::restore(flags.as_slice(), opt_as_str(&file), self.global_args.duplicate()))
                },
                None => None,
            },
            RestoreMode::Into => match selected {
                Some(id) => {
                    let flags: [&str; 2] = ["--into", id.as_str()];
                    assert(crate::shell_out::list_args(flags@) =~= seq!["--into"@, id@]);
                    Some(JjCommand::restore(flags.as_slice(), opt_as_str(&file), self.global_args.duplicate()))
                },
                None => None,
            },
        };
        self.queue_or_invalid(cmd)
    }

    pub open spec fn revert_command(
        &self,
        revision: RevertRevision,
        destination_type: RevertDestinationType,
        destination: RevertDestination,
    ) -> Option<JjCommandView> {
        let source = match revision {
            RevertRevision::Saved => self.saved_change(),
            RevertRevision::Selection => self.selected_change_id(),
        };
        let dest = match destination {
            RevertDestination::Current => Some("@"@),
            RevertDestination::Selection => self.selected_change_id(),
        };
        match (source, dest) {
            (Some(r), Some(d)) => Some(
                JjCommand::revert_spec(r, revert_destination_flag(destination_type), d, self.global_args@),
            ),
            _ => None,
        }
    }

    pub fn jj_revert(
        &mut self,
        revision: RevertRevision,
        destination_type: RevertDestinationType,
        destination: RevertDestination,
    )
        ensures
            queued_or_invalid(
                *old(self),
                old(self).revert_command(revision, destination_type, destination),
                *final(self),
            ),
    {
        let selected = self.selected_change_id_owned();
        let source: Option<&str> = match revision {
            RevertRevision::Saved => opt_as_str(&self.saved_change_id),
            RevertRevision::Selection => opt_as_str(&selected),
        };
        let flag = match destination_type {
            RevertDestinationType::Onto => "--onto",
            RevertDestinationType::InsertAfter => "--insert-after",
            RevertDestinationType::InsertBefore => "--insert-before",
        };
        let dest: Option<&str> = match destination {
            RevertDestination::Current => Some("@"),
            RevertDestination::Selection => opt_as_str(&selected),
        };
        let cmd = match (source, dest) {
            (Some(r), Some(d)) => Some(JjCommand::revert(r, flag, d, self.global_args.duplicate())),
            _ => None,
        };
        self.queue_or_invalid(cmd)
    }

    pub open spec fn resolve_command(&self) -> Option<JjCommandView> {
        match self.selected_change_id() {
            Some(id) => Some(JjCommand::resolve_spec(id, self.global_args@)),
            None => None,
        }
    }

    pub fn jj_resolve(&mut self)
        ensures
            queued_or_invalid(*old(self), old(self).resolve_command(), *final(self)),
    {
        let cmd = match self.get_selected_change_id() {
            Some(id) => Some(JjCommand::resolve(id.as_str(), self.global_args.duplicate())),
            None => None,
        };
        self.queue_or_invalid(cmd)
    }

    /// The revisions of a sign command: the selection, or the range from
    /// the saved change to the selection.
    pub open spec fn sign_revset(&self, range: bool) -> Option<Seq<char>> {
        if range {
            match (self.saved_change(), self.selected_change_id()) {
                (Some(from), Some(to)) => Some(from + "::"@ + to),
                _ => None,
            }
        } else {
            self.selected_change_id()
        }
    }

    pub open spec fn sign_command(&self, action: SignAction, range: bool) -> Option<JjCommandView> {
        match self.sign_revset(range) {
            Some(revset) => Some(JjCommand::sign_spec(sign_name(action), revset, self.global_args@)),
            None => None,
        }
    }

    pub fn jj_sign(&mut self, action: SignAction, range: bool)
        ensures
            queued_or_invalid(*old(self), old(self).sign_command(action, range), *final(self)),
    {
        let selected = self.get_selected_change_id();
        let revset = if range {
            match (self.get_saved_change_id(), selected) {
                (Some(from), Some(to)) => Some(joined(from.as_str(), "::", to.as_str())),
                _ => None,
            }
        } else {
            opt_to_owned(selected)
        };
        let name = match action {
            SignAction::Sign => "sign",
            SignAction::Unsign => "unsign",
        };
        let cmd = match &revset {
            Some(r) => Some(JjCommand::sign(name, r.as_str(), self.global_args.duplicate())),
            None => None,
        };
        self.queue_or_invalid(cmd)
    }

    pub open spec fn simplify_parents_command(&self, mode: SimplifyParentsMode) -> Option<JjCommandView> {
        match self.selected_change_id() {
            Some(id) => Some(
                JjCommand::simplify_parents_spec(id, simplify_parents_flag(mode), self.global_args@),
            ),
            None => None,
        }
    }

    pub fn jj_simplify_parents(&mut self, mode: SimplifyParentsMode)
        ensures
            queued_or_invalid(*old(self), old(self).simplify_parents_command(mode), *final(self)),
    {
        let flag = match mode {
            SimplifyParentsMode::Revisions => "-r",
            SimplifyParentsMode::Source => "-s",
        };
        let cmd = match self.get_selected_change_id() {
            Some(id) => Some(JjCommand::simplify_parents(id.as_str(), flag, self.global_args.duplicate())),
            None => None,
        };
        self.queue_or_invalid(cmd)
    }

    pub open spec fn split_command(&self) -> Option<JjCommandView> {
        match self.selected_change_id() {
            Some(id) => Some(JjCommand::split_spec(id, "Split: part 1"@, self.global_args@)),
            None => None,
        }
    }

    pub fn jj_split(&mut self)
        ensures
            queued_or_invalid(*old(self), old(self).split_command(), *final(self)),
    {
        let cmd = match self.get_selected_change_id() {
            Some(id) => Some(JjCommand::split(id.as_str(), "Split: part 1", self.global_args.duplicate())),
            None => None,
        };
        self.queue_or_invalid(cmd)
    }

    /// Whether the commit that the cursor is in has a description.
    pub open spec fn selected_has_description(&self) -> bool {
        match self.selected_position() {
            Some(pos) => match self.commit_at(pos) {
                Some(n) => n.kind matches crate::log_tree::KindView::Commit { description_first_line, .. }
                    && description_first_line.is_some(),
                None => false,
            },
            None => false,
        }
    }

    pub open spec fn squash_command(&self, mode: SquashMode) -> Option<JjCommandView> {
        match mode {
            SquashMode::Default => match self.selected_change_id() {
                Some(id) => Some(
                    if self.selected_has_description() {
                        JjCommand::squash_interactive_spec(id, self.selected_file_path(), self.global_args@)
                    } else {
                        JjCommand::squash_noninteractive_spec(
                            id,
                            self.selected_file_path(),
                            self.global_args@,
                        )
                    },
                ),
                None => None,
            },
            SquashMode::Into => match (self.saved_change(), self.selected_change_id()) {
                (Some(from), Some(into)) => Some(
                    JjCommand::squash_into_interactive_spec(from, into, self.saved_file(), self.global_args@),
                ),
                _ => None,
            },
        }
    }

    pub fn jj_squash(&mut self, mode: SquashMode)
        ensures
            queued_or_invalid(*old(self), old(self).squash_command(mode), *final(self)),
    {
        let selected = self.get_selected_change_id();
        let file = self.selected_file_path_owned();
        let described = match self.log_list_state.selected {
            Some(s) => if s < self.log_list_tree_positions.len() {
                match self.jj_log.get_tree_commit(&self.log_list_tree_positions[s]) {
                    Some(commit) => match &commit.kind {
                        crate::log_tree::NodeKind::Commit { description_first_line, .. } =>
                            description_first_line.is_some(),
                        _ => false,
                    },
                    None => false,
                }
            } else {
                false
            },
            None => false,
        };
        let cmd = match mode {
            SquashMode::Default => match selected {
                Some(id) => Some(
                    if described {
                        JjCommand::squash_interactive(
                            id.as_str(),
                            opt_as_str(&file),
                            self.global_args.duplicate(),
                        )
                    } else {
                        JjCommand::squash_noninteractive(
                            id.as_str(),
                            opt_as_str(&file),
                            self.global_args.duplicate(),
                        )
                    },
                ),
                None => None,
            },
            SquashMode::Into => match (self.get_saved_change_id(), selected) {
                (Some(from), Some(into)) => Some(
                    JjCommand::squash_into_interactive(
                        from.as_str(),
                        into.as_str(),
                        opt_as_str(&self.saved_file_path),
                        self.global_args.duplicate(),
                    ),
                ),
                _ => None,
            },
        };
        self.queue_or_invalid(cmd)
    }

    pub open spec fn view_command(&self, mode: ViewMode) -> Option<JjCommandView> {
        let file = self.selected_file_path();
        match mode {
            ViewMode::Default => match self.selected_change_id() {
                Some(id) => Some(
                    match file {
                        Some(path) => JjCommand::diff_file_interactive_spec(id, path, self.global_args@),
                        None => JjCommand::show_spec(id, self.global_args@),
                    },
                ),
                None => None,
            },
            ViewMode::FromSelectionToDestination => match (self.saved_change(), self.selected_change_id()) {
                (Some(from), Some(to)) => Some(
                    JjCommand::diff_from_to_interactive_spec(from, to, file, self.global_args@),
                ),
                _ => None,
            },
            _ => match self.selected_change_id() {
                Some(id) => Some(
                    match mode {
                        ViewMode::FromSelection => JjCommand::diff_from_to_interactive_spec(
                            id,
                            "@"@,
                            file,
                            self.global_args@,
                        ),
                        ViewMode::FromTrunkToSelection => JjCommand::diff_from_to_interactive_spec(
                            "trunk()"@,
                            id,
                            file,
                            self.global_args@,
                        ),
                        _ => JjCommand::diff_from_to_interactive_spec("@"@, id, file, self.global_args@),
                    },
                ),
                None => None,
            },
        }
    }

    pub fn jj_view(&mut self, mode: ViewMode)
        ensures
            queued_or_invalid(*old(self), old(self).view_command(mode), *final(self)),
    {
        let selected = self.get_selected_change_id();
        let file = self.selected_file_path_owned();
        let cmd = match mode {
            ViewMode::Default => match selected {
                Some(id) => Some(
                    match &file {
                        Some(path) => JjCommand::diff_file_interactive(
                            id.as_str(),
                            path.as_str(),
                            self.global_args.duplicate(),
                        ),
                        None => JjCommand::show(id.as_str(), self.global_args.duplicate()),
                    },
                ),
                None => None,
            },
            ViewMode::FromSelection => match selected {
                Some(id) => Some(
                    JjCommand::diff_from_to_interactive(
                        id.as_str(),
                        "@",
                        opt_as_str(&file),
                        self.global_args.duplicate(),
                    ),
                ),
                None => None,
            },
            ViewMode::FromSelectionToDestination => match (self.get_saved_change_id(), selected) {
                (Some(from), Some(to)) => Some(
                    JjCommand::diff_from_to_interactive(
                        from.as_str(),
                        to.as_str(),
                        opt_as_str(&file),
                        self.global_args.duplicate(),
                    ),
                ),
                _ => None,
            },
            ViewMode::FromTrunkToSelection => match selected {
                Some(id) => Some(
                    JjCommand::diff_from_to_interactive(
                        "trunk()",
                        id.as_str(),
                        opt_as_str(&file),
                        self.global_args.duplicate(),
                    ),
                ),
                None => None,
            },
            ViewMode::ToSelection => match selected {
                Some(id) => Some(
                    JjCommand::diff_from_to_interactive(
                        "@",
                        id.as_str(),
                        opt_as_str(&file),
                        self.global_args.duplicate(),
                    ),
                ),
                None => None,
            },
        };
        self.queue_or_invalid(cmd)
    }
}

} // verus!
