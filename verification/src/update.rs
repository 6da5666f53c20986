//! The messages that drive the state machine, the modal sub-states, and the
//! mapping of input events to messages.

use vstd::prelude::*;
use crate::commands::queued_or_invalid;
use crate::dialogs::{is_query, popup_closed, Effect, QueryView};

use crate::model::{cleared, invalid_selection_shown, queued, State};

use crate::shell_out::JjCommand;
use crate::keys::{Event, Key, KeyEvent, MouseEvent, MouseEventKind};
use crate::model::Model;

verus! {

/// A fuzzy searchable popup for selecting from a list of options
#[derive(Debug, Clone, PartialEq, Eq)]
pub enum Popup {
    BookmarkDelete { bookmarks: Vec<String> },
    BookmarkForget { bookmarks: Vec<String>, include_remotes: bool },
    BookmarkRenameSelect { bookmarks: Vec<String> },
    BookmarkSet { bookmarks: Vec<String> },
    BookmarkTrack { remote_bookmarks: Vec<String> },
    BookmarkUntrack { tracked_bookmarks: Vec<String> },
    FileTrack { untracked_files: Vec<String> },
    GitFetchRemote { remotes: Vec<String>, select_for_branches: bool },
    GitFetchRemoteBranches { remote: String, branches: Vec<String> },
    GitPushBookmark { bookmarks: Vec<String>, change_id: String, is_named_mode: bool },
    WorkspaceForget { workspaces: Vec<String> },
    WorkspaceUpdateStale { workspaces: Vec<String> },
}

/// Action to take when text prompt is submitted
#[derive(Debug, Clone, PartialEq, Eq)]
pub enum TextPromptAction {
    BookmarkRenameSubmit { old_name: String },
    MetaeditSetAuthor { change_id: String },
    MetaeditSetTimestamp { change_id: String },
    ParallelizeRevset,
    NextPrev { direction: NextPrevDirection, mode: NextPrevMode },
    WorkspaceAdd,
    WorkspaceRenameSubmit,
}

/// Location where text input is currently active
#[derive(Debug, Clone, PartialEq, Eq)]
pub enum TextInputLocation {
    /// No text input active
    Inactive,
    /// Text input in a popup prompt
    Popup { prompt: &'static str, placeholder: &'static str, action: TextPromptAction },
    /// Inline revset editing in header
    Revset { original: String },
    /// Inline bookmark creation at selected commit
    Bookmark { change_id: String },
    /// Inline description editing at selected commit
    Description { change_id: String, mode: DescribeMode },
}

impl Popup {
    /// The title of each kind of popup.
    pub open spec fn spec_title(&self) -> Seq<char> {
        match self {
            Popup::BookmarkDelete { .. } => "Delete Bookmark"@,
            Popup::BookmarkForget { .. } => "Forget Bookmark"@,
            Popup::BookmarkRenameSelect { .. } => "Select Bookmark to Rename"@,
            Popup::BookmarkSet { .. } => "Set Bookmark"@,
            Popup::BookmarkTrack { .. } => "Track Remote Bookmark"@,
            Popup::BookmarkUntrack { .. } => "Untrack Remote Bookmark"@,
            Popup::FileTrack { .. } => "Track File"@,
            Popup::GitFetchRemote { .. } => "Select Remote"@,
            Popup::GitFetchRemoteBranches { .. } => "Select Branch to Fetch"@,
            Popup::GitPushBookmark { .. } => "Select Bookmark to Push"@,
            Popup::WorkspaceForget { .. } => "Forget Workspace"@,
            Popup::WorkspaceUpdateStale { .. } => "Update Stale Workspace"@,
        }
    }

    /// The list that each kind of popup offers.
    pub open spec fn spec_items(&self) -> Vec<String> {
        match self {
            Popup::BookmarkDelete { bookmarks } => *bookmarks,
            Popup::BookmarkForget { bookmarks, .. } => *bookmarks,
            Popup::BookmarkRenameSelect { bookmarks } => *bookmarks,
            Popup::BookmarkSet { bookmarks } => *bookmarks,
            Popup::BookmarkTrack { remote_bookmarks } => *remote_bookmarks,
            Popup::BookmarkUntrack { tracked_bookmarks } => *tracked_bookmarks,
            Popup::FileTrack { untracked_files } => *untracked_files,
            Popup::GitFetchRemote { remotes, .. } => *remotes,
            Popup::GitFetchRemoteBranches { branches, .. } => *branches,
            Popup::GitPushBookmark { bookmarks, .. } => *bookmarks,
            Popup::WorkspaceForget { workspaces } => *workspaces,
            Popup::WorkspaceUpdateStale { workspaces } => *workspaces,
        }
    }

    /// Get the title to display in the popup
    pub fn title(&self) -> (t: &'static str)
        ensures
            t@ == self.spec_title(),
    {
        match self {
            Popup::BookmarkDelete { .. } => "Delete Bookmark",
            Popup::BookmarkForget { .. } => "Forget Bookmark",
            Popup::BookmarkRenameSelect { .. } => "Select Bookmark to Rename",
            Popup::BookmarkSet { .. } => "Set Bookmark",
            Popup::BookmarkTrack { .. } => "Track Remote Bookmark",
            Popup::BookmarkUntrack { .. } => "Untrack Remote Bookmark",
            Popup::FileTrack { .. } => "Track File",
            Popup::GitFetchRemote { .. } => "Select Remote",
            Popup::GitFetchRemoteBranches { .. } => "Select Branch to Fetch",
            Popup::GitPushBookmark { .. } => "Select Bookmark to Push",
            Popup::WorkspaceForget { .. } => "Forget Workspace",
            Popup::WorkspaceUpdateStale { .. } => "Update Stale Workspace",
        }
    }

    /// Get the items to display in the popup
    pub fn items(&self) -> (items: &Vec<String>)
        ensures
            *items == self.spec_items(),
    {
        match self {
            Popup::BookmarkDelete { bookmarks } => bookmarks,
            Popup::BookmarkForget { bookmarks, .. } => bookmarks,
            Popup::BookmarkRenameSelect { bookmarks } => bookmarks,
            Popup::BookmarkSet { bookmarks } => bookmarks,
            Popup::BookmarkTrack { remote_bookmarks } => remote_bookmarks,
            Popup::BookmarkUntrack { tracked_bookmarks } => tracked_bookmarks,
            Popup::FileTrack { untracked_files } => untracked_files,
            Popup::GitFetchRemote { remotes, .. } => remotes,
            Popup::GitFetchRemoteBranches { branches, .. } => branches,
            Popup::GitPushBookmark { bookmarks, .. } => bookmarks,
            Popup::WorkspaceForget { workspaces } => workspaces,
            Popup::WorkspaceUpdateStale { workspaces } => workspaces,
        }
    }
}

#[derive(Debug, PartialEq, Eq, Structural, Clone, Copy)]
pub enum Message {
    Abandon {
        mode: AbandonMode,
    },
    Absorb {
        mode: AbsorbMode,
    },
    BookmarkDelete,
    BookmarkForget {
        include_remotes: bool,
    },
    BookmarkMove {
        mode: BookmarkMoveMode,
    },
    BookmarkRename,
    BookmarkSet,
    BookmarkTrack,
    BookmarkUntrack,
    /// Start editing a bookmark name inline for the selected commit
    BookmarkEditStart,
    /// Start editing description inline for the selected commit
    DescriptionEditStart {
        mode: DescribeMode,
    },
    /// Add a character to the popup filter
    PopupFilterChar {
        ch: char,
    },
    /// Remove last character from popup filter
    PopupFilterBackspace,
    /// Select the currently highlighted popup item
    PopupSelect,
    /// Cancel the popup without selecting
    PopupCancel,
    /// Move selection down in popup
    PopupNext,
    /// Move selection up in popup
    PopupPrev,
    /// Add a character to the text input at cursor position
    TextInputChar {
        ch: char,
    },
    /// Delete character before cursor in text input
    TextInputBackspace,
    /// Delete character at cursor in text input
    TextInputDelete,
    /// Move cursor left in text input
    TextInputMoveLeft,
    /// Move cursor right in text input
    TextInputMoveRight,
    /// Move cursor to start of text input
    TextInputMoveHome,
    /// Move cursor to end of text input
    TextInputMoveEnd,
    /// Submit the text input
    TextInputSubmit,
    /// Cancel the text input
    TextInputCancel,
    Clear,
    Commit,
    Duplicate {
        destination_type: DuplicateDestinationType,
        destination: DuplicateDestination,
    },
    Edit,
    Evolog {
        patch: bool,
    },
    FileTrack,
    FileUntrack,
    GitFetch {
        mode: GitFetchMode,
    },
    GitPush {
        mode: GitPushMode,
    },
    Interdiff {
        mode: InterdiffMode,
    },
    LeftMouseClick {
        row: u16,
        column: u16,
    },
    Metaedit {
        action: MetaeditAction,
    },
    New {
        mode: NewMode,
    },
    NewAfterTrunkSync,
    NewOnBranch,
    RebaseSelectedBranchOntoTrunk,
    RebaseSelectedBranchOntoTrunkSync,
    NextPrev {
        direction: NextPrevDirection,
        mode: NextPrevMode,
        offset: bool,
    },
    Parallelize {
        source: ParallelizeSource,
    },
    Quit,
    Rebase {
        source_type: RebaseSourceType,
        destination_type: RebaseDestinationType,
        destination: RebaseDestination,
    },
    Redo,
    Refresh,
    Restore {
        mode: RestoreMode,
    },
    Revert {
        revision: RevertRevision,
        destination_type: RevertDestinationType,
        destination: RevertDestination,
    },
    RightMouseClick {
        row: u16,
        column: u16,
    },
    SaveSelection,
    ScrollDown,
    ScrollDownPage,
    ScrollUp,
    ScrollUpPage,
    SelectCurrentWorkingCopy,
    SelectNextNode,
    SelectNextSiblingNode,
    SelectParentNode,
    SelectPrevNode,
    SelectPrevSiblingNode,
    SetRevset,
    ShowHelp,
    Sign {
        action: SignAction,
        range: bool,
    },
    SimplifyParents {
        mode: SimplifyParentsMode,
    },
    Split,
    Squash {
        mode: SquashMode,
    },
    Status,
    /// Move the nearest bookmark ancestor to the current commit
    Tug,
    /// Tug, then push each bookmark that was moved
    TugAndGitPush,
    ToggleIgnoreImmutable,
    ToggleLogListFold,
    Undo,
    View {
        mode: ViewMode,
    },
}

#[derive(Debug, PartialEq, Eq, Structural, Clone, Copy)]
pub enum AbandonMode {
    Default,
    RetainBookmarks,
    RestoreDescendants,
}

#[derive(Debug, PartialEq, Eq, Structural, Clone, Copy)]
pub enum AbsorbMode {
    Default,
    Into,
}

#[derive(Debug, PartialEq, Eq, Structural, Clone, Copy)]
pub enum BookmarkMoveMode {
    AllowBackwards,
    Default,
    Tug,
}

#[derive(Debug, PartialEq, Eq, Structural, Clone, Copy)]
pub enum DuplicateDestination {
    Default,
    Selection,
}

#[derive(Debug, PartialEq, Eq, Structural, Clone, Copy)]
pub enum DuplicateDestinationType {
    Default,
    InsertAfter,
    InsertBefore,
    Onto,
}

#[derive(Debug, PartialEq, Eq, Structural, Clone, Copy)]
pub enum GitFetchMode {
    Default,
    AllRemotes,
    Branch,
    Remote,
    TrackedBookmarks,
}

#[derive(Debug, PartialEq, Eq, Structural, Clone, Copy)]
pub enum GitPushMode {
    Default,
    All,
    Bookmark,
    Change,
    Deleted,
    Named,
    Revision,
    TrackedBookmarks,
}

#[derive(Debug, PartialEq, Eq, Structural, Clone, Copy)]
pub enum InterdiffMode {
    FromSelection,
    FromSelectionToDestination,
    ToSelection,
}

#[derive(Debug, PartialEq, Eq, Structural, Clone, Copy)]
pub enum MetaeditAction {
    ForceRewrite,
    SetAuthor,
    SetAuthorTimestamp,
    UpdateAuthor,
    UpdateAuthorTimestamp,
    UpdateChangeId,
}

#[derive(Debug, PartialEq, Eq, Structural, Clone, Copy)]
pub enum DescribeMode {
    Default,
    IgnoreImmutable,
}

#[derive(Debug, PartialEq, Eq, Structural, Clone, Copy)]
pub enum NewMode {
    AfterTrunk,
    Before,
    Default,
    InsertAfter,
}

#[derive(Debug, PartialEq, Eq, Structural, Clone, Copy)]
pub enum NextPrevDirection {
    Next,
    Prev,
}

#[derive(Debug, PartialEq, Eq, Structural, Clone, Copy)]
pub enum NextPrevMode {
    Conflict,
    Default,
    Edit,
    NoEdit,
}

#[derive(Debug, PartialEq, Eq, Structural, Clone, Copy)]
pub enum ParallelizeSource {
    Range,
    Revset,
    Selection,
}

#[derive(Debug, PartialEq, Eq, Structural, Clone, Copy)]
pub enum RebaseDestination {
    Current,
    Selection,
    Trunk,
}

#[derive(Debug, PartialEq, Eq, Structural, Clone, Copy)]
pub enum RebaseDestinationType {
    InsertAfter,
    InsertBefore,
    Onto,
}

#[derive(Debug, PartialEq, Eq, Structural, Clone, Copy)]
pub enum RebaseSourceType {
    Branch,
    Revisions,
    Source,
}

#[derive(Debug, PartialEq, Eq, Structural, Clone, Copy)]
pub enum RestoreMode {
    ChangesIn,
    ChangesInRestoreDescendants,
    From,
    FromInto,
    Into,
}

#[derive(Debug, PartialEq, Eq, Structural, Clone, Copy)]
pub enum RevertDestination {
    Current,
    Selection,
}

#[derive(Debug, PartialEq, Eq, Structural, Clone, Copy)]
pub enum RevertDestinationType {
    InsertAfter,
    InsertBefore,
    Onto,
}

#[derive(Debug, PartialEq, Eq, Structural, Clone, Copy)]
pub enum RevertRevision {
    Saved,
    Selection,
}

#[derive(Debug, PartialEq, Eq, Structural, Clone, Copy)]
pub enum SignAction {
    Sign,
    Unsign,
}

#[derive(Debug, PartialEq, Eq, Structural, Clone, Copy)]
pub enum SimplifyParentsMode {
    Revisions,
    Source,
}

#[derive(Debug, PartialEq, Eq, Structural, Clone, Copy)]
pub enum SquashMode {
    Default,
    Into,
}

#[derive(Debug, PartialEq, Eq, Structural, Clone, Copy)]
pub enum ViewMode {
    Default,
    FromSelection,
    FromSelectionToDestination,
    FromTrunkToSelection,
    ToSelection,
}

/// The message that a key stands for while text is typed.
pub open spec fn text_input_message(key: KeyEvent) -> Option<Message> {
    match key.code {
        Key::Enter => Some(Message::TextInputSubmit),
        Key::Esc => Some(Message::TextInputCancel),
        Key::Backspace => Some(Message::TextInputBackspace),
        Key::Delete => Some(Message::TextInputDelete),
        Key::Left => Some(Message::TextInputMoveLeft),
        Key::Right => Some(Message::TextInputMoveRight),
        Key::Home => Some(Message::TextInputMoveHome),
        Key::End => Some(Message::TextInputMoveEnd),
        Key::Char(c) => if key.control && c == 'b' {
            Some(Message::TextInputMoveLeft)
        } else if key.control && c == 'f' {
            Some(Message::TextInputMoveRight)
        } else if key.control && c == 'a' {
            Some(Message::TextInputMoveHome)
        } else if key.control && c == 'e' {
            Some(Message::TextInputMoveEnd)
        } else if key.control && c == 'k' {
            Some(Message::TextInputDelete)
        } else if key.control && c == 'u' {
            Some(Message::TextInputBackspace)
        } else {
            Some(Message::TextInputChar { ch: c })
        },
        _ => None,
    }
}

/// The message that a key stands for while a popup is open: every
/// character goes into the filter, the arrows move the highlight.
pub open spec fn popup_message(key: KeyEvent) -> Option<Message> {
    match key.code {
        Key::Enter => Some(Message::PopupSelect),
        Key::Esc => Some(Message::PopupCancel),
        Key::Backspace => Some(Message::PopupFilterBackspace),
        Key::Down => Some(Message::PopupNext),
        Key::Up => Some(Message::PopupPrev),
        Key::Char(c) => Some(Message::PopupFilterChar { ch: c }),
        _ => None,
    }
}

/// The message that a key stands for by itself, outside any sub-state; the
/// other keys are keys of commands.
pub open spec fn fixed_message(key: KeyEvent) -> Option<Message> {
    match key.code {
        Key::Down => Some(Message::SelectNextNode),
        Key::Up => Some(Message::SelectPrevNode),
        Key::PageDown => Some(Message::ScrollDownPage),
        Key::PageUp => Some(Message::ScrollUpPage),
        Key::Left => Some(Message::SelectPrevSiblingNode),
        Key::Right => Some(Message::SelectNextSiblingNode),
        Key::Tab => Some(Message::ToggleLogListFold),
        Key::Esc => Some(Message::Clear),
        Key::Char(c) => if c == 'q' {
            Some(Message::Quit)
        } else if c == 'c' && key.control {
            Some(Message::Quit)
        } else if c == 'j' {
            Some(Message::SelectNextNode)
        } else if c == 'k' {
            Some(Message::SelectPrevNode)
        } else if c == 'n' && key.control {
            Some(Message::SelectNextNode)
        } else if c == 'p' && key.control {
            Some(Message::SelectPrevNode)
        } else if c == 'h' {
            Some(Message::SelectPrevSiblingNode)
        } else if c == 'l' {
            Some(Message::SelectNextSiblingNode)
        } else if c == 'K' {
            Some(Message::SelectParentNode)
        } else if c == ' ' {
            Some(Message::Refresh)
        } else if c == 'r' && key.control {
            Some(Message::Refresh)
        } else if c == '@' {
            Some(Message::SelectCurrentWorkingCopy)
        } else if c == 'L' {
            Some(Message::SetRevset)
        } else if c == 'I' {
            Some(Message::ToggleIgnoreImmutable)
        } else if c == '?' {
            Some(Message::ShowHelp)
        } else {
            None
        },
        _ => None,
    }
}

fn text_input_key(key: KeyEvent) -> (r: Option<Message>)
    ensures
        r == text_input_message(key),
{
    match key.code {
        Key::Enter => Some(Message::TextInputSubmit),
        Key::Esc => Some(Message::TextInputCancel),
        Key::Backspace => Some(Message::TextInputBackspace),
        Key::Delete => Some(Message::TextInputDelete),
        Key::Left => Some(Message::TextInputMoveLeft),
        Key::Right => Some(Message::TextInputMoveRight),
        Key::Home => Some(Message::TextInputMoveHome),
        Key::End => Some(Message::TextInputMoveEnd),
        Key::Char(c) => if key.control && c == 'b' {
            Some(Message::TextInputMoveLeft)
        } else if key.control && c == 'f' {
            Some(Message::TextInputMoveRight)
        } else if key.control && c == 'a' {
            Some(Message::TextInputMoveHome)
        } else if key.control && c == 'e' {
            Some(Message::TextInputMoveEnd)
        } else if key.control && c == 'k' {
            Some(Message::TextInputDelete)
        } else if key.control && c == 'u' {
            Some(Message::TextInputBackspace)
        } else {
            Some(Message::TextInputChar { ch: c })
        },
        _ => None,
    }
}

fn popup_key(key: KeyEvent) -> (r: Option<Message>)
    ensures
        r == popup_message(key),
{
    match key.code {
        Key::Enter => Some(Message::PopupSelect),
        Key::Esc => Some(Message::PopupCancel),
        Key::Backspace => Some(Message::PopupFilterBackspace),
        Key::Down => Some(Message::PopupNext),
        Key::Up => Some(Message::PopupPrev),
        Key::Char(c) => Some(Message::PopupFilterChar { ch: c }),
        _ => None,
    }
}

fn fixed_key(key: KeyEvent) -> (r: Option<Message>)
    ensures
        r == fixed_message(key),
{
    match key.code {
        Key::Down => Some(Message::SelectNextNode),
        Key::Up => Some(Message::SelectPrevNode),
        Key::PageDown => Some(Message::ScrollDownPage),
        Key::PageUp => Some(Message::ScrollUpPage),
        Key::Left => Some(Message::SelectPrevSiblingNode),
        Key::Right => Some(Message::SelectNextSiblingNode),
        Key::Tab => Some(Message::ToggleLogListFold),
        Key::Esc => Some(Message::Clear),
        Key::Char(c) => if c == 'q' {
            Some(Message::Quit)
        } else if c == 'c' && key.control {
            Some(Message::Quit)
        } else if c == 'j' {
            Some(Message::SelectNextNode)
        } else if c == 'k' {
            Some(Message::SelectPrevNode)
        } else if c == 'n' && key.control {
            Some(Message::SelectNextNode)
        } else if c == 'p' && key.control {
            Some(Message::SelectPrevNode)
        } else if c == 'h' {
            Some(Message::SelectPrevSiblingNode)
        } else if c == 'l' {
            Some(Message::SelectNextSiblingNode)
        } else if c == 'K' {
            Some(Message::SelectParentNode)
        } else if c == ' ' {
            Some(Message::Refresh)
        } else if c == 'r' && key.control {
            Some(Message::Refresh)
        } else if c == '@' {
            Some(Message::SelectCurrentWorkingCopy)
        } else if c == 'L' {
            Some(Message::SetRevset)
        } else if c == 'I' {
            Some(Message::ToggleIgnoreImmutable)
        } else if c == '?' {
            Some(Message::ShowHelp)
        } else {
            None
        },
        _ => None,
    }
}

/// Whether `after` and `r` are what a key press makes of `before`.
pub open spec fn key_handled(before: Model, key: KeyEvent, r: Option<Message>, after: Model) -> bool {
    if !(before.text_input_location is Inactive) {
        r == text_input_message(key) && after == before
    } else if before.current_popup.is_some() {
        r == popup_message(key) && after == before
    } else if fixed_message(key).is_some() {
        r == fixed_message(key) && after == before
    } else {
        Model::handle_command_key_result(before, key.code, r, after)
    }
}

/// The message that a key press stands for. While text is typed, and while
/// a popup is open, every key goes to that sub-state. Else the key is one
/// of the fixed keys or a key of a command, which the key table resolves.
pub fn handle_key(model: &mut Model, key: KeyEvent) -> (r: Option<Message>)
    ensures
        key_handled(*old(model), key, r, *final(model)),
        old(model).wf() ==> final(model).wf(),
{
    let typing = match &model.text_input_location {
        TextInputLocation::Inactive => false,
        _ => true,
    };
    if typing {
        return text_input_key(key);
    }
    if model.current_popup.is_some() {
        return popup_key(key);
    }
    match fixed_key(key) {
        Some(message) => Some(message),
        None => model.handle_command_key(key.code),
    }
}

/// The message that a mouse event stands for.
pub open spec fn mouse_message(mouse: MouseEvent) -> Option<Message> {
    match mouse.kind {
        MouseEventKind::ScrollDown => Some(Message::ScrollDown),
        MouseEventKind::ScrollUp => Some(Message::ScrollUp),
        MouseEventKind::LeftDown => Some(Message::LeftMouseClick { row: mouse.row, column: mouse.column }),
        MouseEventKind::RightDown => Some(
            Message::RightMouseClick { row: mouse.row, column: mouse.column },
        ),
        MouseEventKind::Other => None,
    }
}

/// The message that a mouse event stands for.
pub fn handle_mouse(mouse: MouseEvent) -> (r: Option<Message>)
    ensures
        r == mouse_message(mouse),
{
    match mouse.kind {
        MouseEventKind::ScrollDown => Some(Message::ScrollDown),
        MouseEventKind::ScrollUp => Some(Message::ScrollUp),
        MouseEventKind::LeftDown => Some(Message::LeftMouseClick { row: mouse.row, column: mouse.column }),
        MouseEventKind::RightDown => Some(
            Message::RightMouseClick { row: mouse.row, column: mouse.column },
        ),
        MouseEventKind::Other => None,
    }
}

/// Whether `after` and `effect` are what a message that stands for a
/// command of the engine makes of `before`: the invocation for the
/// selection is queued, or asked for first, or the selection is reported as
/// not fitting.
#[verifier::opaque]
pub open spec fn command_effect(before: Model, msg: Message, effect: Effect, after: Model) -> bool {
    let args = before.global_args@;
    match msg {
        Message::Abandon { mode } => effect is Nothing && queued_or_invalid(
            before,
            before.abandon_command(mode),
            after,
        ),
        Message::Absorb { mode } => effect is Nothing && queued_or_invalid(
            before,
            before.absorb_command(mode),
            after,
        ),
        Message::BookmarkMove { mode } => effect is Nothing && queued_or_invalid(
            before,
            before.bookmark_move_command(mode),
            after,
        ),
        Message::Commit => effect is Nothing && queued(
            before,
            seq![JjCommand::commit_spec(before.selected_file_path(), args)],
            after,
        ),
        Message::Duplicate { destination_type, destination } => effect is Nothing && queued_or_invalid(
            before,
            before.duplicate_command(destination_type, destination),
            after,
        ),
        Message::Edit => effect is Nothing && queued_or_invalid(before, before.edit_command(), after),
        Message::Evolog { patch } => effect is Nothing && queued_or_invalid(
            before,
            before.evolog_command(patch),
            after,
        ),
        Message::FileUntrack => effect is Nothing && queued_or_invalid(
            before,
            before.file_untrack_command(),
            after,
        ),
        Message::Interdiff { mode } => effect is Nothing && queued_or_invalid(
            before,
            before.interdiff_command(mode),
            after,
        ),
        Message::New { mode } => effect is Nothing && queued_or_invalid(
            before,
            before.new_command(mode),
            after,
        ),
        Message::NewAfterTrunkSync => effect is Nothing && queued(
            before,
            seq![
                JjCommand::git_fetch_spec(None, None, args),
                JjCommand::new_spec("trunk()"@, Seq::empty(), args),
            ],
            after,
        ),
        Message::NewOnBranch => effect is Nothing && match before.selected_change_id() {
            Some(id) => queued(
                before,
                seq![JjCommand::new_spec(id, Seq::empty(), args), JjCommand::tug_spec(args)],
                after,
            ),
            None => invalid_selection_shown(before, after),
        },
        Message::Rebase { source_type, destination_type, destination } => effect is Nothing
            && queued_or_invalid(
            before,
            before.rebase_command(source_type, destination_type, destination),
            after,
        ),
        Message::RebaseSelectedBranchOntoTrunk => effect is Nothing && queued_or_invalid(
            before,
            before.rebase_onto_trunk_command(),
            after,
        ),
        Message::RebaseSelectedBranchOntoTrunkSync => effect is Nothing
            && match before.rebase_onto_trunk_command() {
            Some(rebase) => queued(before, seq![JjCommand::git_fetch_spec(None, None, args), rebase], after),
            None => invalid_selection_shown(before, after),
        },
        Message::Redo => effect is Nothing && queued(before, seq![JjCommand::redo_spec(args)], after),
        Message::Restore { mode } => effect is Nothing && queued_or_invalid(
            before,
            before.restore_command(mode),
            after,
        ),
        Message::Revert { revision, destination_type, destination } => effect is Nothing
            && queued_or_invalid(
            before,
            before.revert_command(revision, destination_type, destination),
            after,
        ),
        Message::Sign { action, range } => effect is Nothing && queued_or_invalid(
            before,
            before.sign_command(action, range),
            after,
        ),
        Message::SimplifyParents { mode } => effect is Nothing && queued_or_invalid(
            before,
            before.simplify_parents_command(mode),
            after,
        ),
        Message::Split => effect is Nothing && queued_or_invalid(before, before.split_command(), after),
        Message::Squash { mode } => effect is Nothing && queued_or_invalid(
            before,
            before.squash_command(mode),
            after,
        ),
        Message::Status => effect is Nothing && queued(before, seq![JjCommand::status_spec(args)], after),
        Message::Tug => effect is Nothing && queued(before, seq![JjCommand::tug_spec(args)], after),
        Message::Undo => effect is Nothing && queued(before, seq![JjCommand::undo_spec(args)], after),
        Message::View { mode } => effect is Nothing && queued_or_invalid(
            before,
            before.view_command(mode),
            after,
        ),
        Message::BookmarkDelete => after == before && is_query(
            effect,
            JjCommand::bookmark_list_spec(args),
            QueryView::BookmarkDelete,
        ),
        Message::BookmarkRename => after == before && is_query(
            effect,
            JjCommand::bookmark_list_spec(args),
            QueryView::BookmarkRename,
        ),
        Message::BookmarkForget { include_remotes } => after == before && is_query(
            effect,
            JjCommand::bookmark_list_with_args_spec(
                if include_remotes {
                    seq!["bookmark"@, "list"@, "-T"@, "name"@, "--all-remotes"@]
                } else {
                    seq!["bookmark"@, "list"@, "-T"@, "name"@]
                },
                args,
            ),
            QueryView::BookmarkForget { include_remotes },
        ),
        Message::BookmarkSet => Model::jj_bookmark_set_result(before, effect, after),
        Message::BookmarkTrack => after == before && is_query(
            effect,
            JjCommand::bookmark_list_with_args_spec(seq!["bookmark"@, "list"@, "--all-remotes"@], args),
            QueryView::BookmarkTrack,
        ),
        Message::BookmarkUntrack => after == before && is_query(
            effect,
            JjCommand::bookmark_list_with_args_spec(seq!["bookmark"@, "list"@, "--all-remotes"@], args),
            QueryView::BookmarkUntrack,
        ),
        Message::FileTrack => after == before && is_query(
            effect,
            JjCommand::file_list_untracked_spec(args),
            QueryView::FileTrack,
        ),
        Message::GitFetch { mode } => Model::jj_git_fetch_result(before, mode, effect, after),
        Message::TugAndGitPush => after == before && is_query(
            effect,
            JjCommand::bookmark_list_with_args_spec(
                seq!["bookmark"@, "list"@, "-r"@, "heads(::@- & bookmarks())"@, "-T"@, "name"@],
                args,
            ),
            QueryView::TugAndGitPush,
        ),
        _ => true,
    }
}

/// Whether `after` and `effect` are what a message on moving about or on
/// the state of the program makes of `before`: what the method of the model
/// for the message makes of it.
#[verifier::opaque]
pub open spec fn motion_effect(
    before: Model,
    msg: Message,
    now: u64,
    effect: Effect,
    after: Model,
) -> bool {
    match msg {
        Message::Clear => effect is Nothing && cleared(before, after),
        Message::Quit => effect is Nothing && after == (Model { state: State::Quit, ..before }),
        Message::Refresh => effect is Refresh && after == before,
        Message::SetRevset => effect is Nothing && Model::set_revset_result(before, after),
        Message::ToggleIgnoreImmutable => effect is Nothing && Model::toggle_ignore_immutable_result(
            before,
            after,
        ),
        Message::ShowHelp => effect is Nothing && Model::show_help_result(before, after),
        Message::SaveSelection => effect is Nothing && Model::save_selection_result(before, after),
        Message::SelectNextNode => effect is Nothing && Model::select_next_node_result(before, after),
        Message::SelectPrevNode => effect is Nothing && Model::select_prev_node_result(before, after),
        Message::SelectParentNode => effect is Nothing && Model::select_parent_node_result(before, after),
        Message::SelectNextSiblingNode => effect is Nothing
            && Model::select_current_next_sibling_node_result(before, after),
        Message::SelectPrevSiblingNode => effect is Nothing
            && Model::select_current_prev_sibling_node_result(before, after),
        Message::SelectCurrentWorkingCopy => effect is Nothing
            && Model::select_current_working_copy_result(before, after),
        Message::ToggleLogListFold => effect is Nothing && Model::toggle_current_fold_result(before, after),
        Message::ScrollDownPage => effect is Nothing && Model::scroll_down_page_result(before, after),
        Message::ScrollUpPage => effect is Nothing && Model::scroll_up_page_result(before, after),
        Message::ScrollDown => effect is Nothing && Model::scroll_down_once_result(before, after),
        Message::ScrollUp => effect is Nothing && Model::scroll_up_once_result(before, after),
        Message::LeftMouseClick { row, column } => Model::handle_mouse_click_result(
            before,
            row,
            column,
            now,
            effect,
            after,
        ),
        Message::RightMouseClick { row, column } => exists|mid: Model| #[trigger]
            Model::handle_mouse_click_result(before, row, column, now, effect, mid)
                && Model::toggle_current_fold_result(mid, after),
        _ => true,
    }
}

/// Whether `after` and `effect` are what a message to a text input or a
/// popup makes of `before`: what the method of the model for the message
/// makes of it.
#[verifier::opaque]
pub open spec fn modal_effect(before: Model, msg: Message, effect: Effect, after: Model) -> bool {
    match msg {
        Message::PopupFilterChar { ch } => effect is Nothing && Model::popup_filter_char_result(
            before,
            ch,
            after,
        ),
        Message::PopupFilterBackspace => effect is Nothing && Model::popup_filter_backspace_result(
            before,
            after,
        ),
        Message::PopupNext => effect is Nothing && Model::popup_next_result(before, after),
        Message::PopupPrev => effect is Nothing && Model::popup_prev_result(before, after),
        Message::PopupCancel => effect is Nothing && popup_closed(before, after),
        Message::PopupSelect => Model::popup_select_result(before, effect, after),
        Message::TextInputChar { ch } => effect is Nothing && Model::text_input_char_result(
            before,
            ch,
            after,
        ),
        Message::TextInputBackspace => effect is Nothing && Model::text_input_backspace_result(
            before,
            after,
        ),
        Message::TextInputDelete => effect is Nothing && Model::text_input_delete_result(before, after),
        Message::TextInputMoveLeft => effect is Nothing && Model::text_input_move_left_result(
            before,
            after,
        ),
        Message::TextInputMoveRight => effect is Nothing && Model::text_input_move_right_result(
            before,
            after,
        ),
        Message::TextInputMoveHome => effect is Nothing && Model::text_input_move_home_result(
            before,
            after,
        ),
        Message::TextInputMoveEnd => effect is Nothing && Model::text_input_move_end_result(before, after),
        Message::TextInputCancel => effect is Nothing && crate::dialogs::input_closed(before, after),
        Message::TextInputSubmit => Model::text_input_submit_result(before, effect, after),
        _ => true,
    }
}

/// Whether `after` and `effect` are what a message that opens a text input
/// or may ask the engine first makes of `before`: what the method of the
/// model for the message makes of it.
#[verifier::opaque]
pub open spec fn prompt_effect(before: Model, msg: Message, effect: Effect, after: Model) -> bool {
    match msg {
        Message::BookmarkEditStart => effect is Nothing && Model::bookmark_edit_start_result(
            before,
            after,
        ),
        Message::DescriptionEditStart { mode } => effect is Nothing
            && Model::description_edit_start_result(before, mode, after),
        Message::Metaedit { action } => effect is Nothing && Model::jj_metaedit_result(
            before,
            action,
            after,
        ),
        Message::NextPrev { direction, mode, offset } => effect is Nothing && Model::jj_next_prev_result(
            before,
            direction,
            mode,
            offset,
            after,
        ),
        Message::Parallelize { source } => effect is Nothing && Model::jj_parallelize_result(
            before,
            source,
            after,
        ),
        Message::GitPush { mode } => Model::jj_git_push_result(before, mode, effect, after),
        _ => true,
    }
}

/// Whether a message is about moving about or the state of the program.
pub open spec fn is_motion(msg: Message) -> bool {
    match msg {
        Message::Clear | Message::Quit | Message::Refresh | Message::SetRevset | Message::ToggleIgnoreImmutable | Message::ShowHelp | Message::SaveSelection | Message::SelectNextNode | Message::SelectPrevNode | Message::SelectParentNode | Message::SelectNextSiblingNode | Message::SelectPrevSiblingNode | Message::ToggleLogListFold | Message::ScrollDownPage | Message::ScrollUpPage | Message::ScrollDown | Message::ScrollUp | Message::SelectCurrentWorkingCopy | Message::LeftMouseClick { .. } | Message::RightMouseClick { .. } => true,
        _ => false,
    }
}

/// Whether a message goes to a text input or a popup.
pub open spec fn is_modal(msg: Message) -> bool {
    match msg {
        Message::PopupFilterChar { .. } | Message::PopupFilterBackspace | Message::PopupNext | Message::PopupPrev | Message::PopupCancel | Message::PopupSelect | Message::TextInputChar { .. } | Message::TextInputBackspace | Message::TextInputDelete | Message::TextInputMoveLeft | Message::TextInputMoveRight | Message::TextInputMoveHome | Message::TextInputMoveEnd | Message::TextInputCancel | Message::TextInputSubmit => true,
        _ => false,
    }
}

/// Whether a message opens a text input or may ask the engine first.
pub open spec fn is_prompt(msg: Message) -> bool {
    match msg {
        Message::BookmarkEditStart | Message::DescriptionEditStart { .. } | Message::Metaedit { .. } | Message::NextPrev { .. } | Message::Parallelize { .. } | Message::GitPush { .. } => true,
        _ => false,
    }
}

/// Whether `after` and `effect` are what a message that stands for a
/// command of the engine makes of `before`; see [`command_effect`].
pub open spec fn command_handled(before: Model, msg: Message, effect: Effect, after: Model) -> bool {
    !is_motion(msg) && !is_modal(msg) && !is_prompt(msg) ==> command_effect(before, msg, effect, after)
}

/// Whether `after` and `effect` are what a message on moving about or on
/// the state of the program makes of `before`; see [`motion_effect`].
pub open spec fn motion_handled(
    before: Model,
    msg: Message,
    now: u64,
    effect: Effect,
    after: Model,
) -> bool {
    is_motion(msg) ==> motion_effect(before, msg, now, effect, after)
}

/// Whether `after` and `effect` are what a message to a text input or a
/// popup makes of `before`; see [`modal_effect`].
pub open spec fn modal_handled(before: Model, msg: Message, effect: Effect, after: Model) -> bool {
    is_modal(msg) ==> modal_effect(before, msg, effect, after)
}

/// Whether `after` and `effect` are what a message that opens a text input
/// or may ask the engine first makes of `before`; see [`prompt_effect`].
pub open spec fn prompt_handled(before: Model, msg: Message, effect: Effect, after: Model) -> bool {
    is_prompt(msg) ==> prompt_effect(before, msg, effect, after)
}

/// Applies a message on moving about or on the state of the program.
fn handle_motion_msg(model: &mut Model, msg: Message, now: u64) -> (effect: Effect)
    requires
        old(model).wf(),
    ensures
        final(model).wf(),
        motion_effect(*old(model), msg, now, effect, *final(model)),
{
    proof {
        reveal(motion_effect);
    }
    match msg {
        Message::Clear => {
            model.clear();
            Effect::Nothing
        },
        Message::Quit => {
            model.quit();
            Effect::Nothing
        },
        Message::Refresh => Effect::Refresh,
        Message::SetRevset => {
            model.set_revset();
            Effect::Nothing
        },
        Message::ShowHelp => {
            model.show_help();
            Effect::Nothing
        },
        Message::ToggleIgnoreImmutable => {
            model.toggle_ignore_immutable();
            Effect::Nothing
        },
        Message::ScrollDownPage => {
            model.scroll_down_page();
            Effect::Nothing
        },
        Message::ScrollUpPage => {
            model.scroll_up_page();
            Effect::Nothing
        },
        Message::SelectCurrentWorkingCopy => {
            model.select_current_working_copy();
            Effect::Nothing
        },
        Message::SelectNextNode => {
            model.select_next_node();
            Effect::Nothing
        },
        Message::SelectNextSiblingNode => {
            model.select_current_next_sibling_node();
            Effect::Nothing
        },
        Message::SelectParentNode => {
            model.select_parent_node();
            Effect::Nothing
        },
        Message::SelectPrevNode => {
            model.select_prev_node();
            Effect::Nothing
        },
        Message::SelectPrevSiblingNode => {
            model.select_current_prev_sibling_node();
            Effect::Nothing
        },
        Message::ToggleLogListFold => {
            model.toggle_current_fold();
            Effect::Nothing
        },
        Message::LeftMouseClick { row, column } => model.handle_mouse_click(row, column, now),
        Message::RightMouseClick { row, column } => {
            let effect = model.handle_mouse_click(row, column, now);
            model.toggle_current_fold();
            effect
        },
        Message::ScrollDown => {
            model.scroll_down_once();
            Effect::Nothing
        },
        Message::ScrollUp => {
            model.scroll_up_once();
            Effect::Nothing
        },
        Message::SaveSelection => {
            model.save_selection();
            Effect::Nothing
        },
        _ => Effect::Nothing,
    }
}

/// Applies a message to a text input or a popup.
fn handle_modal_msg(model: &mut Model, msg: Message) -> (effect: Effect)
    requires
        old(model).wf(),
    ensures
        final(model).wf(),
        modal_effect(*old(model), msg, effect, *final(model)),
{
    proof {
        reveal(modal_effect);
    }
    match msg {
        Message::PopupFilterChar { ch } => {
            model.popup_filter_char(ch);
            Effect::Nothing
        },
        Message::PopupFilterBackspace => {
            model.popup_filter_backspace();
            Effect::Nothing
        },
        Message::PopupNext => {
            model.popup_next();
            Effect::Nothing
        },
        Message::PopupPrev => {
            model.popup_prev();
            Effect::Nothing
        },
        Message::PopupSelect => model.popup_select(),
        Message::PopupCancel => {
            model.popup_cancel();
            Effect::Nothing
        },
        Message::TextInputChar { ch } => {
            model.text_input_char(ch);
            Effect::Nothing
        },
        Message::TextInputBackspace => {
            model.text_input_backspace();
            Effect::Nothing
        },
        Message::TextInputDelete => {
            model.text_input_delete();
            Effect::Nothing
        },
        Message::TextInputMoveLeft => {
            model.text_input_move_left();
            Effect::Nothing
        },
        Message::TextInputMoveRight => {
            model.text_input_move_right();
            Effect::Nothing
        },
        Message::TextInputMoveHome => {
            model.text_input_move_home();
            Effect::Nothing
        },
        Message::TextInputMoveEnd => {
            model.text_input_move_end();
            Effect::Nothing
        },
        Message::TextInputSubmit => model.text_input_submit(),
        Message::TextInputCancel => {
            model.text_input_cancel();
            Effect::Nothing
        },
        _ => Effect::Nothing,
    }
}

/// Applies a message that stands for a command of the engine.
fn handle_command_msg(model: &mut Model, msg: Message) -> (effect: Effect)
    requires
        old(model).wf(),
    ensures
        final(model).wf(),
        command_effect(*old(model), msg, effect, *final(model)),
{
    proof {
        reveal(command_effect);
    }
    match msg {
        Message::Abandon { mode } => {
            model.jj_abandon(mode);
            Effect::Nothing
        },
        Message::Absorb { mode } => {
            model.jj_absorb(mode);
            Effect::Nothing
        },
        Message::BookmarkDelete => model.jj_bookmark_delete(),
        Message::BookmarkForget { include_remotes } => model.jj_bookmark_forget(include_remotes),
        Message::BookmarkMove { mode } => {
            model.jj_bookmark_move(mode);
            Effect::Nothing
        },
        Message::BookmarkRename => model.jj_bookmark_rename(),
        Message::BookmarkSet => model.jj_bookmark_set(),
        Message::BookmarkTrack => model.jj_bookmark_track(),
        Message::BookmarkUntrack => model.jj_bookmark_untrack(),
        Message::Commit => {
            model.jj_commit();
            Effect::Nothing
        },
        Message::Duplicate { destination_type, destination } => {
            model.jj_duplicate(destination_type, destination);
            Effect::Nothing
        },
        Message::Edit => {
            model.jj_edit();
            Effect::Nothing
        },
        Message::Evolog { patch } => {
            model.jj_evolog(patch);
            Effect::Nothing
        },
        Message::FileTrack => model.jj_file_track(),
        Message::FileUntrack => {
            model.jj_file_untrack();
            Effect::Nothing
        },
        Message::GitFetch { mode } => model.jj_git_fetch(mode),
        Message::Interdiff { mode } => {
            model.jj_interdiff(mode);
            Effect::Nothing
        },
        Message::New { mode } => {
            model.jj_new(mode);
            Effect::Nothing
        },
        Message::NewAfterTrunkSync => {
            model.jj_new_after_trunk_sync();
            Effect::Nothing
        },
        Message::NewOnBranch => {
            model.jj_new_on_branch();
            Effect::Nothing
        },
        Message::RebaseSelectedBranchOntoTrunk => {
            model.jj_rebase_selected_branch_onto_trunk();
            Effect::Nothing
        },
        Message::RebaseSelectedBranchOntoTrunkSync => {
            model.jj_rebase_selected_branch_onto_trunk_sync();
            Effect::Nothing
        },
        Message::Rebase { source_type, destination_type, destination } => {
            model.jj_rebase(source_type, destination_type, destination);
            Effect::Nothing
        },
        Message::Redo => {
            model.jj_redo();
            Effect::Nothing
        },
        Message::Restore { mode } => {
            model.jj_restore(mode);
            Effect::Nothing
        },
        Message::Revert { revision, destination_type, destination } => {
            model.jj_revert(revision, destination_type, destination);
            Effect::Nothing
        },
        Message::Sign { action, range } => {
            model.jj_sign(action, range);
            Effect::Nothing
        },
        Message::SimplifyParents { mode } => {
            model.jj_simplify_parents(mode);
            Effect::Nothing
        },
        Message::Split => {
            model.jj_split();
            Effect::Nothing
        },
        Message::Squash { mode } => {
            model.jj_squash(mode);
            Effect::Nothing
        },
        Message::Status => {
            model.jj_status();
            Effect::Nothing
        },
        Message::Tug => {
            model.jj_tug();
            Effect::Nothing
        },
        Message::TugAndGitPush => model.jj_tug_and_git_push(),
        Message::Undo => {
            model.jj_undo();
            Effect::Nothing
        },
        Message::View { mode } => {
            model.jj_view(mode);
            Effect::Nothing
        },
        _ => Effect::Nothing,
    }
}

/// Applies a message that opens a text input or asks the engine first.
#[verifier::rlimit(100)]
#[verifier::spinoff_prover]
fn handle_prompt_msg(model: &mut Model, msg: Message) -> (effect: Effect)
    requires
        old(model).wf(),
    ensures
        final(model).wf(),
        prompt_effect(*old(model), msg, effect, *final(model)),
{
    proof {
        reveal(prompt_effect);
    }
    match msg {
        Message::BookmarkEditStart => {
            model.bookmark_edit_start();
            Effect::Nothing
        },
        Message::DescriptionEditStart { mode } => {
            model.description_edit_start(mode);
            Effect::Nothing
        },
        Message::GitPush { mode } => model.jj_git_push(mode),
        Message::Metaedit { action } => {
            model.jj_metaedit(action);
            Effect::Nothing
        },
        Message::NextPrev { direction, mode, offset } => {
            model.jj_next_prev(direction, mode, offset);
            Effect::Nothing
        },
        Message::Parallelize { source } => {
            model.jj_parallelize(source);
            Effect::Nothing
        },
        _ => Effect::Nothing,
    }
}

/// Whether `after` and `effect` are what a message makes of `before`. The
/// message belongs to one of four groups, and the predicate of its group
/// says what it does.
pub open spec fn message_handled(
    before: Model,
    msg: Message,
    now: u64,
    effect: Effect,
    after: Model,
) -> bool {
    &&& command_handled(before, msg, effect, after)
    &&& motion_handled(before, msg, now, effect, after)
    &&& modal_handled(before, msg, effect, after)
    &&& prompt_handled(before, msg, effect, after)
}

/// Applies a message to the model. What needs the engine or the editor is
/// asked for by the effect. `now` is the time in milliseconds of any clock
/// that does not run backwards; only mouse clicks read it.
pub fn handle_msg(model: &mut Model, msg: Message, now: u64) -> (effect: Effect)
    requires
        old(model).wf(),
    ensures
        final(model).wf(),
        message_handled(*old(model), msg, now, effect, *final(model)),
{
    match msg {
        Message::Clear | Message::LeftMouseClick { .. } | Message::Quit | Message::Refresh | Message::RightMouseClick { .. } | Message::SaveSelection | Message::ScrollDown | Message::ScrollDownPage | Message::ScrollUp | Message::ScrollUpPage | Message::SelectCurrentWorkingCopy | Message::SelectNextNode | Message::SelectNextSiblingNode | Message::SelectParentNode | Message::SelectPrevNode | Message::SelectPrevSiblingNode | Message::SetRevset | Message::ShowHelp | Message::ToggleIgnoreImmutable | Message::ToggleLogListFold => handle_motion_msg(model, msg, now),
        Message::PopupCancel | Message::PopupFilterBackspace | Message::PopupFilterChar { .. } | Message::PopupNext | Message::PopupPrev | Message::PopupSelect | Message::TextInputBackspace | Message::TextInputCancel | Message::TextInputChar { .. } | Message::TextInputDelete | Message::TextInputMoveEnd | Message::TextInputMoveHome | Message::TextInputMoveLeft | Message::TextInputMoveRight | Message::TextInputSubmit => handle_modal_msg(model, msg),
        Message::BookmarkEditStart | Message::DescriptionEditStart { .. } | Message::GitPush { .. } | Message::Metaedit { .. } | Message::NextPrev { .. } | Message::Parallelize { .. } => handle_prompt_msg(model, msg),
        _ => handle_command_msg(model, msg),
    }
}

/// Whether `after` and `msg` are what reading an event makes of `before`:
/// only a key of a command changes the model here.
pub open spec fn event_read(before: Model, event: Event, msg: Option<Message>, after: Model) -> bool {
    match event {
        Event::Key(key) => key_handled(before, key, msg, after),
        Event::Mouse(mouse) => msg == mouse_message(mouse) && after == before,
    }
}

/// Takes an event of the terminal: finds the message that it stands for and
/// applies it. An event that stands for no message has no effect.
pub fn update(model: &mut Model, event: Event, now: u64) -> (effect: Effect)
    requires
        old(model).wf(),
    ensures
        final(model).wf(),
        exists|mid: Model, msg: Option<Message>| #[trigger]
            event_read(*old(model), event, msg, mid) && match msg {
                Some(m) => message_handled(mid, m, now, effect, *final(model)),
                None => effect is Nothing && *final(model) == mid,
            },
{
    let current_msg = match event {
        Event::Key(key) => handle_key(model, key),
        Event::Mouse(mouse) => handle_mouse(mouse),
    };
    let ghost mid = *model;
    let effect = match current_msg {
        Some(msg) => handle_msg(model, msg, now),
        None => Effect::Nothing,
    };
    assert(event_read(*old(model), event, current_msg, mid));
    effect
}

} // verus!
