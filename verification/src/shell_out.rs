//! Invocations of the engine as values: the arguments, and what the program
//! that runs them has to know. Running them is not the library's business.

use vstd::prelude::*;
use vstd::string::*;
use crate::strings::push_char;
use crate::text::{raw_line, Line};

verus! {

broadcast use vstd::string::group_string_axioms;

/// What every invocation carries: the repository, and whether immutable
/// changes may be rewritten.
#[derive(Debug, Clone, PartialEq, Eq)]
pub struct GlobalArgs {
    pub repository: String,
    pub ignore_immutable: bool,
}

/// [`GlobalArgs`] as a mathematical value.
pub struct GlobalArgsView {
    pub repository: Seq<char>,
    pub ignore_immutable: bool,
}

impl View for GlobalArgs {
    type V = GlobalArgsView;

    open spec fn view(&self) -> GlobalArgsView {
        GlobalArgsView { repository: self.repository@, ignore_immutable: self.ignore_immutable }
    }
}

impl GlobalArgs {
    /// A copy of these arguments.
    pub fn duplicate(&self) -> (r: Self)
        ensures
            r@ == self@,
    {
        GlobalArgs { repository: self.repository.clone(), ignore_immutable: self.ignore_immutable }
    }
}

/// How an invocation failed.
#[derive(Debug, Clone, PartialEq, Eq)]
pub enum JjCommandError {
    /// The engine ran and reported failure; this is what it wrote.
    Failed { stderr: String },
    /// The engine could not be run at all.
    Other { err: String },
}

/// One invocation of the engine.
#[derive(Debug, Clone, PartialEq, Eq)]
pub struct JjCommand {
    /// The arguments behind the engine's name.
    pub args: Vec<String>,
    pub global_args: GlobalArgs,
    /// Whether the engine takes over the terminal while it runs.
    pub interactive: bool,
    /// Whether the log has to be loaded anew after the invocation succeeded.
    pub sync: bool,
}

/// [`JjCommand`] as a mathematical value.
pub struct JjCommandView {
    pub args: Seq<Seq<char>>,
    pub global_args: GlobalArgsView,
    pub interactive: bool,
    pub sync: bool,
}

pub open spec fn args_view(args: Seq<String>) -> Seq<Seq<char>> {
    args.map_values(|a: String| a@)
}

impl View for JjCommand {
    type V = JjCommandView;

    open spec fn view(&self) -> JjCommandView {
        JjCommandView {
            args: args_view(self.args@),
            global_args: self.global_args@,
            interactive: self.interactive,
            sync: self.sync,
        }
    }
}

/// The invocations of a list as mathematical values.
pub open spec fn commands_view(cmds: Seq<JjCommand>) -> Seq<JjCommandView> {
    cmds.map_values(|c: JjCommand| c@)
}

/// An optional string as a mathematical value.
pub open spec fn opt_str_view(value: Option<&str>) -> Option<Seq<char>> {
    match value {
        Some(v) => Some(v@),
        None => None,
    }
}

/// An optional string as a mathematical value.
pub open spec fn opt_string_view(value: Option<String>) -> Option<Seq<char>> {
    match value {
        Some(v) => Some(v@),
        None => None,
    }
}

/// The argument that an optional value stands for: itself, or none.
pub open spec fn opt_arg(value: Option<Seq<char>>) -> Seq<Seq<char>> {
    match value {
        Some(v) => seq![v],
        None => Seq::empty(),
    }
}

/// A flag with its value, or nothing where the value is absent.
pub open spec fn opt_flag_arg(flag: Seq<char>, value: Option<Seq<char>>) -> Seq<Seq<char>> {
    match value {
        Some(v) => seq![flag, v],
        None => Seq::empty(),
    }
}

/// A flag that is given or left out.
pub open spec fn flag_arg(given: bool, flag: Seq<char>) -> Seq<Seq<char>> {
    if given {
        seq![flag]
    } else {
        Seq::empty()
    }
}

/// The arguments that a list of strings stands for.
pub open spec fn list_args(values: Seq<&str>) -> Seq<Seq<char>> {
    values.map_values(|v: &str| v@)
}

/// The line that describes an invocation: the engine's name and the
/// arguments, separated by spaces.
pub open spec fn command_text(args: Seq<Seq<char>>) -> Seq<char>
    decreases args.len(),
{
    if args.len() == 0 {
        "jj"@
    } else {
        command_text(args.drop_last()) + seq![' '] + args.last()
    }
}

fn push_arg(args: &mut Vec<String>, arg: &str)
    ensures
        args_view(final(args)@) == args_view(old(args)@).push(arg@),
{
    args.push(String::from_str(arg));
    assert(args_view(args@) =~= args_view(old(args)@).push(arg@));
}

fn push_opt_arg(args: &mut Vec<String>, arg: Option<&str>)
    ensures
        args_view(final(args)@) == args_view(old(args)@) + opt_arg(opt_str_view(arg)),
{
    match arg {
        Some(a) => {
            push_arg(args, a);
        },
        None => {},
    }
    assert(args_view(args@) =~= args_view(old(args)@) + opt_arg(opt_str_view(arg)));
}

fn push_opt_flag_arg(args: &mut Vec<String>, flag: &str, arg: Option<&str>)
    ensures
        args_view(final(args)@) == args_view(old(args)@) + opt_flag_arg(flag@, opt_str_view(arg)),
{
    match arg {
        Some(a) => {
            push_arg(args, flag);
            push_arg(args, a);
        },
        None => {},
    }
    assert(args_view(args@) =~= args_view(old(args)@) + opt_flag_arg(flag@, opt_str_view(arg)));
}

fn push_flag_arg(args: &mut Vec<String>, given: bool, flag: &str)
    ensures
        args_view(final(args)@) == args_view(old(args)@) + flag_arg(given, flag@),
{
    if given {
        push_arg(args, flag);
    }
    assert(args_view(args@) =~= args_view(old(args)@) + flag_arg(given, flag@));
}

fn push_list_args(args: &mut Vec<String>, values: &[&str])
    ensures
        args_view(final(args)@) == args_view(old(args)@) + list_args(values@),
{
    let ghost start = args_view(args@);
    let mut i: usize = 0;
    assert(args_view(args@) =~= start + list_args(values@).take(0));
    while i < values.len()
        invariant
            i <= values.len(),
            args_view(args@) == start + list_args(values@).take(i as int),
        decreases values.len() - i,
    {
        push_arg(args, values[i]);
        assert(args_view(args@) =~= start + list_args(values@).take(i + 1));
        i = i + 1;
    }
    assert(list_args(values@).take(values.len() as int) =~= list_args(values@));
}

impl JjCommand {
    /// A copy of this invocation.
    pub fn make_copy(&self) -> (r: Self)
        ensures
            r@ == self@,
    {
        let mut args: Vec<String> = Vec::new();
        let mut i: usize = 0;
        assert(args_view(args@) =~= args_view(self.args@).take(0));
        while i < self.args.len()
            invariant
                i <= self.args.len(),
                args_view(args@) == args_view(self.args@).take(i as int),
            decreases self.args.len() - i,
        {
            let ghost prev = args_view(args@);
            args.push(self.args[i].clone());
            assert(args_view(args@) =~= prev.push(self.args@[i as int]@));
            assert(args_view(self.args@).take(i + 1) =~= args_view(self.args@).take(i as int).push(
                self.args@[i as int]@,
            ));
            i = i + 1;
        }
        assert(args_view(self.args@).take(self.args.len() as int) =~= args_view(self.args@));
        JjCommand {
            args,
            global_args: self.global_args.duplicate(),
            interactive: self.interactive,
            sync: self.sync,
        }
    }

    /// Whether the log has to be loaded anew after the invocation succeeded.
    pub fn sync(&self) -> (r: bool)
        ensures
            r == self@.sync,
    {
        self.sync
    }

    /// The text that describes the invocation.
    pub fn description(&self) -> (text: String)
        ensures
            text@ == command_text(self@.args),
    {
        let mut text = String::from_str("jj");
        let mut i: usize = 0;
        assert(args_view(self.args@).take(0) =~= Seq::empty());
        while i < self.args.len()
            invariant
                i <= self.args.len(),
                text@ == command_text(args_view(self.args@).take(i as int)),
            decreases self.args.len() - i,
        {
            proof {
                let upto = args_view(self.args@).take(i + 1);
                assert(upto.drop_last() =~= args_view(self.args@).take(i as int));
                assert(upto.last() == self.args@[i as int]@);
            }
            push_char(&mut text, ' ');
            text.append(self.args[i].as_str());
            i = i + 1;
        }
        assert(args_view(self.args@).take(self.args.len() as int) =~= args_view(self.args@));
        text
    }

    /// The lines that are shown for the invocation before its output.
    pub fn to_lines(&self) -> (lines: Vec<Line>)
        ensures
            lines@.map_values(|l: Line| l@) == seq![raw_line(command_text(self@.args))],
    {
        let text = self.description();
        let mut lines: Vec<Line> = Vec::new();
        lines.push(Line::raw(text.as_str()));
        assert(lines@.map_values(|l: Line| l@) =~= seq![raw_line(command_text(self@.args))]);
        lines
    }

    /// The invocation that [`JjCommand::abandon`] makes.
    pub open spec fn abandon_spec(change_id: Seq<char>, mode: Option<Seq<char>>, global_args: GlobalArgsView) -> JjCommandView {
        JjCommandView {
            args: (Seq::<Seq<char>>::empty().push("abandon"@) + opt_arg(mode)).push(change_id),
            global_args,
            interactive: false,
            sync: true,
        }
    }

    /// Abandons a change.
    pub fn abandon(change_id: &str, mode: Option<&str>, global_args: GlobalArgs) -> (cmd: Self)
        ensures
            cmd@ == Self::abandon_spec(change_id@, opt_str_view(mode), global_args@),
    {
        let mut list: Vec<String> = Vec::new();
        assert(args_view(list@) =~= Seq::<Seq<char>>::empty());
        push_arg(&mut list, "abandon");
        push_opt_arg(&mut list, mode);
        push_arg(&mut list, change_id);
        JjCommand { args: list, global_args, interactive: false, sync: true }
    }

    /// The invocation that [`JjCommand::absorb`] makes.
    pub open spec fn absorb_spec(from_change_id: Seq<char>, maybe_into_change_id: Option<Seq<char>>, maybe_file_path: Option<Seq<char>>, global_args: GlobalArgsView) -> JjCommandView {
        JjCommandView {
            args: ((Seq::<Seq<char>>::empty().push("absorb"@).push("--from"@).push(from_change_id) + opt_flag_arg("--into"@, maybe_into_change_id)) + opt_arg(maybe_file_path)),
            global_args,
            interactive: false,
            sync: true,
        }
    }

    /// Moves the changes of a change into the ancestors that they belong to.
    pub fn absorb(from_change_id: &str, maybe_into_change_id: Option<&str>, maybe_file_path: Option<&str>, global_args: GlobalArgs) -> (cmd: Self)
        ensures
            cmd@ == Self::absorb_spec(from_change_id@, opt_str_view(maybe_into_change_id), opt_str_view(maybe_file_path), global_args@),
    {
        let mut list: Vec<String> = Vec::new();
        assert(args_view(list@) =~= Seq::<Seq<char>>::empty());
        push_arg(&mut list, "absorb");
        push_arg(&mut list, "--from");
        push_arg(&mut list, from_change_id);
        push_opt_flag_arg(&mut list, "--into", maybe_into_change_id);
        push_opt_arg(&mut list, maybe_file_path);
        JjCommand { args: list, global_args, interactive: false, sync: true }
    }

    /// The invocation that [`JjCommand::bookmark_create`] makes.
    pub open spec fn bookmark_create_spec(bookmark_name: Seq<char>, change_id: Seq<char>, global_args: GlobalArgsView) -> JjCommandView {
        JjCommandView {
            args: Seq::<Seq<char>>::empty().push("bookmark"@).push("create"@).push("-r"@).push(change_id).push(bookmark_name),
            global_args,
            interactive: false,
            sync: true,
        }
    }

    /// Creates a bookmark at a change.
    pub fn bookmark_create(bookmark_name: &str, change_id: &str, global_args: GlobalArgs) -> (cmd: Self)
        ensures
            cmd@ == Self::bookmark_create_spec(bookmark_name@, change_id@, global_args@),
    {
        let mut list: Vec<String> = Vec::new();
        assert(args_view(list@) =~= Seq::<Seq<char>>::empty());
        push_arg(&mut list, "bookmark");
        push_arg(&mut list, "create");
        push_arg(&mut list, "-r");
        push_arg(&mut list, change_id);
        push_arg(&mut list, bookmark_name);
        JjCommand { args: list, global_args, interactive: false, sync: true }
    }

    /// The invocation that [`JjCommand::bookmark_delete`] makes.
    pub open spec fn bookmark_delete_spec(bookmark_name: Seq<char>, global_args: GlobalArgsView) -> JjCommandView {
        JjCommandView {
            args: Seq::<Seq<char>>::empty().push("bookmark"@).push("delete"@).push(bookmark_name),
            global_args,
            interactive: false,
            sync: true,
        }
    }

    /// Deletes a bookmark.
    pub fn bookmark_delete(bookmark_name: &str, global_args: GlobalArgs) -> (cmd: Self)
        ensures
            cmd@ == Self::bookmark_delete_spec(bookmark_name@, global_args@),
    {
        let mut list: Vec<String> = Vec::new();
        assert(args_view(list@) =~= Seq::<Seq<char>>::empty());
        push_arg(&mut list, "bookmark");
        push_arg(&mut list, "delete");
        push_arg(&mut list, bookmark_name);
        JjCommand { args: list, global_args, interactive: false, sync: true }
    }

    /// The invocation that [`JjCommand::bookmark_forget`] makes.
    pub open spec fn bookmark_forget_spec(bookmark_name: Seq<char>, include_remotes: bool, global_args: GlobalArgsView) -> JjCommandView {
        JjCommandView {
            args: (Seq::<Seq<char>>::empty().push("bookmark"@).push("forget"@) + flag_arg(include_remotes, "--include-remotes"@)).push(bookmark_name),
            global_args,
            interactive: false,
            sync: true,
        }
    }

    /// Forgets a bookmark.
    pub fn bookmark_forget(bookmark_name: &str, include_remotes: bool, global_args: GlobalArgs) -> (cmd: Self)
        ensures
            cmd@ == Self::bookmark_forget_spec(bookmark_name@, include_remotes, global_args@),
    {
        let mut list: Vec<String> = Vec::new();
        assert(args_view(list@) =~= Seq::<Seq<char>>::empty());
        push_arg(&mut list, "bookmark");
        push_arg(&mut list, "forget");
        push_flag_arg(&mut list, include_remotes, "--include-remotes");
        push_arg(&mut list, bookmark_name);
        JjCommand { args: list, global_args, interactive: false, sync: true }
    }

    /// The invocation that [`JjCommand::bookmark_list`] makes.
    pub open spec fn bookmark_list_spec(global_args: GlobalArgsView) -> JjCommandView {
        JjCommandView {
            args: Seq::<Seq<char>>::empty().push("bookmark"@).push("list"@),
            global_args,
            interactive: false,
            sync: false,
        }
    }

    /// Lists the bookmarks.
    pub fn bookmark_list(global_args: GlobalArgs) -> (cmd: Self)
        ensures
            cmd@ == Self::bookmark_list_spec(global_args@),
    {
        let mut list: Vec<String> = Vec::new();
        assert(args_view(list@) =~= Seq::<Seq<char>>::empty());
        push_arg(&mut list, "bookmark");
        push_arg(&mut list, "list");
        JjCommand { args: list, global_args, interactive: false, sync: false }
    }

    /// The invocation that [`JjCommand::bookmark_list_with_args`] makes.
    pub open spec fn bookmark_list_with_args_spec(args: Seq<Seq<char>>, global_args: GlobalArgsView) -> JjCommandView {
        JjCommandView {
            args: (Seq::<Seq<char>>::empty() + args),
            global_args,
            interactive: false,
            sync: false,
        }
    }

    /// Lists bookmarks with the arguments given in full.
    pub fn bookmark_list_with_args(args: &[&str], global_args: GlobalArgs) -> (cmd: Self)
        ensures
            cmd@ == Self::bookmark_list_with_args_spec(list_args(args@), global_args@),
    {
        let mut list: Vec<String> = Vec::new();
        assert(args_view(list@) =~= Seq::<Seq<char>>::empty());
        push_list_args(&mut list, args);
        JjCommand { args: list, global_args, interactive: false, sync: false }
    }

    /// The invocation that [`JjCommand::bookmark_move`] makes.
    pub open spec fn bookmark_move_spec(from_change_id: Seq<char>, to_change_id: Seq<char>, allow_backwards: bool, global_args: GlobalArgsView) -> JjCommandView {
        JjCommandView {
            args: (Seq::<Seq<char>>::empty().push("bookmark"@).push("move"@).push("--from"@).push(from_change_id).push("--to"@).push(to_change_id) + flag_arg(allow_backwards, "--allow-backwards"@)),
            global_args,
            interactive: false,
            sync: true,
        }
    }

    /// Moves the bookmarks of one change to another.
    pub fn bookmark_move(from_change_id: &str, to_change_id: &str, allow_backwards: bool, global_args: GlobalArgs) -> (cmd: Self)
        ensures
            cmd@ == Self::bookmark_move_spec(from_change_id@, to_change_id@, allow_backwards, global_args@),
    {
        let mut list: Vec<String> = Vec::new();
        assert(args_view(list@) =~= Seq::<Seq<char>>::empty());
        push_arg(&mut list, "bookmark");
        push_arg(&mut list, "move");
        push_arg(&mut list, "--from");
        push_arg(&mut list, from_change_id);
        push_arg(&mut list, "--to");
        push_arg(&mut list, to_change_id);
        push_flag_arg(&mut list, allow_backwards, "--allow-backwards");
        JjCommand { args: list, global_args, interactive: false, sync: true }
    }

    /// The invocation that [`JjCommand::bookmark_rename`] makes.
    pub open spec fn bookmark_rename_spec(old_name: Seq<char>, new_name: Seq<char>, global_args: GlobalArgsView) -> JjCommandView {
        JjCommandView {
            args: Seq::<Seq<char>>::empty().push("bookmark"@).push("rename"@).push(old_name).push(new_name),
            global_args,
            interactive: false,
            sync: true,
        }
    }

    /// Renames a bookmark.
    pub fn bookmark_rename(old_name: &str, new_name: &str, global_args: GlobalArgs) -> (cmd: Self)
        ensures
            cmd@ == Self::bookmark_rename_spec(old_name@, new_name@, global_args@),
    {
        let mut list: Vec<String> = Vec::new();
        assert(args_view(list@) =~= Seq::<Seq<char>>::empty());
        push_arg(&mut list, "bookmark");
        push_arg(&mut list, "rename");
        push_arg(&mut list, old_name);
        push_arg(&mut list, new_name);
        JjCommand { args: list, global_args, interactive: false, sync: true }
    }

    /// The invocation that [`JjCommand::bookmark_set`] makes.
    pub open spec fn bookmark_set_spec(bookmark_name: Seq<char>, change_id: Seq<char>, global_args: GlobalArgsView) -> JjCommandView {
        JjCommandView {
            args: Seq::<Seq<char>>::empty().push("bookmark"@).push("set"@).push(bookmark_name).push("-r"@).push(change_id),
            global_args,
            interactive: false,
            sync: true,
        }
    }

    /// Points a bookmark at a change.
    pub fn bookmark_set(bookmark_name: &str, change_id: &str, global_args: GlobalArgs) -> (cmd: Self)
        ensures
            cmd@ == Self::bookmark_set_spec(bookmark_name@, change_id@, global_args@),
    {
        let mut list: Vec<String> = Vec::new();
        assert(args_view(list@) =~= Seq::<Seq<char>>::empty());
        push_arg(&mut list, "bookmark");
        push_arg(&mut list, "set");
        push_arg(&mut list, bookmark_name);
        push_arg(&mut list, "-r");
        push_arg(&mut list, change_id);
        JjCommand { args: list, global_args, interactive: false, sync: true }
    }

    /// The invocation that [`JjCommand::bookmark_track`] makes.
    pub open spec fn bookmark_track_spec(bookmark_name: Seq<char>, global_args: GlobalArgsView) -> JjCommandView {
        JjCommandView {
            args: Seq::<Seq<char>>::empty().push("bookmark"@).push("track"@).push(bookmark_name),
            global_args,
            interactive: false,
            sync: true,
        }
    }

    /// Tracks a remote bookmark.
    pub fn bookmark_track(bookmark_name: &str, global_args: GlobalArgs) -> (cmd: Self)
        ensures
            cmd@ == Self::bookmark_track_spec(bookmark_name@, global_args@),
    {
        let mut list: Vec<String> = Vec::new();
        assert(args_view(list@) =~= Seq::<Seq<char>>::empty());
        push_arg(&mut list, "bookmark");
        push_arg(&mut list, "track");
        push_arg(&mut list, bookmark_name);
        JjCommand { args: list, global_args, interactive: false, sync: true }
    }

    /// The invocation that [`JjCommand::bookmark_untrack`] makes.
    pub open spec fn bookmark_untrack_spec(bookmark_name: Seq<char>, global_args: GlobalArgsView) -> JjCommandView {
        JjCommandView {
            args: Seq::<Seq<char>>::empty().push("bookmark"@).push("untrack"@).push(bookmark_name),
            global_args,
            interactive: false,
            sync: true,
        }
    }

    /// Stops tracking a remote bookmark.
    pub fn bookmark_untrack(bookmark_name: &str, global_args: GlobalArgs) -> (cmd: Self)
        ensures
            cmd@ == Self::bookmark_untrack_spec(bookmark_name@, global_args@),
    {
        let mut list: Vec<String> = Vec::new();
        assert(args_view(list@) =~= Seq::<Seq<char>>::empty());
        push_arg(&mut list, "bookmark");
        push_arg(&mut list, "untrack");
        push_arg(&mut list, bookmark_name);
        JjCommand { args: list, global_args, interactive: false, sync: true }
    }

    /// The invocation that [`JjCommand::commit`] makes.
    pub open spec fn commit_spec(maybe_file_path: Option<Seq<char>>, global_args: GlobalArgsView) -> JjCommandView {
        JjCommandView {
            args: (Seq::<Seq<char>>::empty().push("commit"@) + opt_arg(maybe_file_path)),
            global_args,
            interactive: true,
            sync: true,
        }
    }

    /// Commits the working copy, in the editor.
    pub fn commit(maybe_file_path: Option<&str>, global_args: GlobalArgs) -> (cmd: Self)
        ensures
            cmd@ == Self::commit_spec(opt_str_view(maybe_file_path), global_args@),
    {
        let mut list: Vec<String> = Vec::new();
        assert(args_view(list@) =~= Seq::<Seq<char>>::empty());
        push_arg(&mut list, "commit");
        push_opt_arg(&mut list, maybe_file_path);
        JjCommand { args: list, global_args, interactive: true, sync: true }
    }

    /// The invocation that [`JjCommand::describe_with_message`] makes.
    pub open spec fn describe_with_message_spec(change_id: Seq<char>, message: Seq<char>, ignore_immutable: bool, global_args: GlobalArgsView) -> JjCommandView {
        JjCommandView {
            args: (Seq::<Seq<char>>::empty().push("describe"@).push("-r"@).push(change_id).push("-m"@).push(message) + flag_arg(ignore_immutable, "--ignore-immutable"@)),
            global_args,
            interactive: false,
            sync: true,
        }
    }

    /// Sets the description of a change.
    pub fn describe_with_message(change_id: &str, message: &str, ignore_immutable: bool, global_args: GlobalArgs) -> (cmd: Self)
        ensures
            cmd@ == Self::describe_with_message_spec(change_id@, message@, ignore_immutable, global_args@),
    {
        let mut list: Vec<String> = Vec::new();
        assert(args_view(list@) =~= Seq::<Seq<char>>::empty());
        push_arg(&mut list, "describe");
        push_arg(&mut list, "-r");
        push_arg(&mut list, change_id);
        push_arg(&mut list, "-m");
        push_arg(&mut list, message);
        push_flag_arg(&mut list, ignore_immutable, "--ignore-immutable");
        JjCommand { args: list, global_args, interactive: false, sync: true }
    }

    /// The invocation that [`JjCommand::diff_file_interactive`] makes.
    pub open spec fn diff_file_interactive_spec(change_id: Seq<char>, file_path: Seq<char>, global_args: GlobalArgsView) -> JjCommandView {
        JjCommandView {
            args: Seq::<Seq<char>>::empty().push("diff"@).push("-r"@).push(change_id).push(file_path),
            global_args,
            interactive: true,
            sync: false,
        }
    }

    /// Shows the diff of one file of a change.
    pub fn diff_file_interactive(change_id: &str, file_path: &str, global_args: GlobalArgs) -> (cmd: Self)
        ensures
            cmd@ == Self::diff_file_interactive_spec(change_id@, file_path@, global_args@),
    {
        let mut list: Vec<String> = Vec::new();
        assert(args_view(list@) =~= Seq::<Seq<char>>::empty());
        push_arg(&mut list, "diff");
        push_arg(&mut list, "-r");
        push_arg(&mut list, change_id);
        push_arg(&mut list, file_path);
        JjCommand { args: list, global_args, interactive: true, sync: false }
    }

    /// The invocation that [`JjCommand::diff_from_to_interactive`] makes.
    pub open spec fn diff_from_to_interactive_spec(from_change_id: Seq<char>, to_change_id: Seq<char>, maybe_file_path: Option<Seq<char>>, global_args: GlobalArgsView) -> JjCommandView {
        JjCommandView {
            args: (Seq::<Seq<char>>::empty().push("diff"@).push("--from"@).push(from_change_id).push("--to"@).push(to_change_id) + opt_arg(maybe_file_path)),
            global_args,
            interactive: true,
            sync: false,
        }
    }

    /// Shows the diff between two changes.
    pub fn diff_from_to_interactive(from_change_id: &str, to_change_id: &str, maybe_file_path: Option<&str>, global_args: GlobalArgs) -> (cmd: Self)
        ensures
            cmd@ == Self::diff_from_to_interactive_spec(from_change_id@, to_change_id@, opt_str_view(maybe_file_path), global_args@),
    {
        let mut list: Vec<String> = Vec::new();
        assert(args_view(list@) =~= Seq::<Seq<char>>::empty());
        push_arg(&mut list, "diff");
        push_arg(&mut list, "--from");
        push_arg(&mut list, from_change_id);
        push_arg(&mut list, "--to");
        push_arg(&mut list, to_change_id);
        push_opt_arg(&mut list, maybe_file_path);
        JjCommand { args: list, global_args, interactive: true, sync: false }
    }

    /// The invocation that [`JjCommand::duplicate`] makes.
    pub open spec fn duplicate_spec(change_id: Seq<char>, destination_type: Option<Seq<char>>, destination: Option<Seq<char>>, global_args: GlobalArgsView) -> JjCommandView {
        JjCommandView {
            args: ((Seq::<Seq<char>>::empty().push("duplicate"@).push(change_id) + opt_arg(destination_type)) + opt_arg(destination)),
            global_args,
            interactive: false,
            sync: true,
        }
    }

    /// Duplicates a change.
    pub fn duplicate(change_id: &str, destination_type: Option<&str>, destination: Option<&str>, global_args: GlobalArgs) -> (cmd: Self)
        ensures
            cmd@ == Self::duplicate_spec(change_id@, opt_str_view(destination_type), opt_str_view(destination), global_args@),
    {
        let mut list: Vec<String> = Vec::new();
        assert(args_view(list@) =~= Seq::<Seq<char>>::empty());
        push_arg(&mut list, "duplicate");
        push_arg(&mut list, change_id);
        push_opt_arg(&mut list, destination_type);
        push_opt_arg(&mut list, destination);
        JjCommand { args: list, global_args, interactive: false, sync: true }
    }

    /// The invocation that [`JjCommand::edit`] makes.
    pub open spec fn edit_spec(change_id: Seq<char>, global_args: GlobalArgsView) -> JjCommandView {
        JjCommandView {
            args: Seq::<Seq<char>>::empty().push("edit"@).push(change_id),
            global_args,
            interactive: false,
            sync: true,
        }
    }

    /// Makes a change the working copy.
    pub fn edit(change_id: &str, global_args: GlobalArgs) -> (cmd: Self)
        ensures
            cmd@ == Self::edit_spec(change_id@, global_args@),
    {
        let mut list: Vec<String> = Vec::new();
        assert(args_view(list@) =~= Seq::<Seq<char>>::empty());
        push_arg(&mut list, "edit");
        push_arg(&mut list, change_id);
        JjCommand { args: list, global_args, interactive: false, sync: true }
    }

    /// The invocation that [`JjCommand::evolog`] makes.
    pub open spec fn evolog_spec(change_id: Seq<char>, patch: bool, global_args: GlobalArgsView) -> JjCommandView {
        JjCommandView {
            args: (Seq::<Seq<char>>::empty().push("evolog"@).push("-r"@).push(change_id) + flag_arg(patch, "--patch"@)),
            global_args,
            interactive: true,
            sync: false,
        }
    }

    /// Shows how a change evolved.
    pub fn evolog(change_id: &str, patch: bool, global_args: GlobalArgs) -> (cmd: Self)
        ensures
            cmd@ == Self::evolog_spec(change_id@, patch, global_args@),
    {
        let mut list: Vec<String> = Vec::new();
        assert(args_view(list@) =~= Seq::<Seq<char>>::empty());
        push_arg(&mut list, "evolog");
        push_arg(&mut list, "-r");
        push_arg(&mut list, change_id);
        push_flag_arg(&mut list, patch, "--patch");
        JjCommand { args: list, global_args, interactive: true, sync: false }
    }

    /// The invocation that [`JjCommand::file_list_untracked`] makes.
    pub open spec fn file_list_untracked_spec(global_args: GlobalArgsView) -> JjCommandView {
        JjCommandView {
            args: Seq::<Seq<char>>::empty().push("file"@).push("list"@).push("--untracked"@),
            global_args,
            interactive: false,
            sync: false,
        }
    }

    /// Lists the files that are not tracked.
    pub fn file_list_untracked(global_args: GlobalArgs) -> (cmd: Self)
        ensures
            cmd@ == Self::file_list_untracked_spec(global_args@),
    {
        let mut list: Vec<String> = Vec::new();
        assert(args_view(list@) =~= Seq::<Seq<char>>::empty());
        push_arg(&mut list, "file");
        push_arg(&mut list, "list");
        push_arg(&mut list, "--untracked");
        JjCommand { args: list, global_args, interactive: false, sync: false }
    }

    /// The invocation that [`JjCommand::file_track`] makes.
    pub open spec fn file_track_spec(file_path: Seq<char>, global_args: GlobalArgsView) -> JjCommandView {
        JjCommandView {
            args: Seq::<Seq<char>>::empty().push("file"@).push("track"@).push(file_path),
            global_args,
            interactive: false,
            sync: true,
        }
    }

    /// Tracks a file.
    pub fn file_track(file_path: &str, global_args: GlobalArgs) -> (cmd: Self)
        ensures
            cmd@ == Self::file_track_spec(file_path@, global_args@),
    {
        let mut list: Vec<String> = Vec::new();
        assert(args_view(list@) =~= Seq::<Seq<char>>::empty());
        push_arg(&mut list, "file");
        push_arg(&mut list, "track");
        push_arg(&mut list, file_path);
        JjCommand { args: list, global_args, interactive: false, sync: true }
    }

    /// The invocation that [`JjCommand::file_untrack`] makes.
    pub open spec fn file_untrack_spec(file_path: Seq<char>, global_args: GlobalArgsView) -> JjCommandView {
        JjCommandView {
            args: Seq::<Seq<char>>::empty().push("file"@).push("untrack"@).push(file_path),
            global_args,
            interactive: false,
            sync: true,
        }
    }

    /// Stops tracking a file.
    pub fn file_untrack(file_path: &str, global_args: GlobalArgs) -> (cmd: Self)
        ensures
            cmd@ == Self::file_untrack_spec(file_path@, global_args@),
    {
        let mut list: Vec<String> = Vec::new();
        assert(args_view(list@) =~= Seq::<Seq<char>>::empty());
        push_arg(&mut list, "file");
        push_arg(&mut list, "untrack");
        push_arg(&mut list, file_path);
        JjCommand { args: list, global_args, interactive: false, sync: true }
    }

    /// The invocation that [`JjCommand::git_fetch`] makes.
    pub open spec fn git_fetch_spec(flag: Option<Seq<char>>, value: Option<Seq<char>>, global_args: GlobalArgsView) -> JjCommandView {
        JjCommandView {
            args: ((Seq::<Seq<char>>::empty().push("git"@).push("fetch"@) + opt_arg(flag)) + opt_arg(value)),
            global_args,
            interactive: false,
            sync: true,
        }
    }

    /// Fetches from a remote.
    pub fn git_fetch(flag: Option<&str>, value: Option<&str>, global_args: GlobalArgs) -> (cmd: Self)
        ensures
            cmd@ == Self::git_fetch_spec(opt_str_view(flag), opt_str_view(value), global_args@),
    {
        let mut list: Vec<String> = Vec::new();
        assert(args_view(list@) =~= Seq::<Seq<char>>::empty());
        push_arg(&mut list, "git");
        push_arg(&mut list, "fetch");
        push_opt_arg(&mut list, flag);
        push_opt_arg(&mut list, value);
        JjCommand { args: list, global_args, interactive: false, sync: true }
    }

    /// The invocation that [`JjCommand::git_fetch_from_remote`] makes.
    pub open spec fn git_fetch_from_remote_spec(remote: Seq<char>, maybe_branch: Option<Seq<char>>, global_args: GlobalArgsView) -> JjCommandView {
        JjCommandView {
            args: (Seq::<Seq<char>>::empty().push("git"@).push("fetch"@).push("--remote"@).push(remote) + opt_flag_arg("--branch"@, maybe_branch)),
            global_args,
            interactive: false,
            sync: true,
        }
    }

    /// Fetches from the named remote, one branch or all.
    pub fn git_fetch_from_remote(remote: &str, maybe_branch: Option<&str>, global_args: GlobalArgs) -> (cmd: Self)
        ensures
            cmd@ == Self::git_fetch_from_remote_spec(remote@, opt_str_view(maybe_branch), global_args@),
    {
        let mut list: Vec<String> = Vec::new();
        assert(args_view(list@) =~= Seq::<Seq<char>>::empty());
        push_arg(&mut list, "git");
        push_arg(&mut list, "fetch");
        push_arg(&mut list, "--remote");
        push_arg(&mut list, remote);
        push_opt_flag_arg(&mut list, "--branch", maybe_branch);
        JjCommand { args: list, global_args, interactive: false, sync: true }
    }

    /// The invocation that [`JjCommand::git_push`] makes.
    pub open spec fn git_push_spec(flag: Option<Seq<char>>, value: Option<Seq<char>>, global_args: GlobalArgsView) -> JjCommandView {
        JjCommandView {
            args: ((Seq::<Seq<char>>::empty().push("git"@).push("push"@) + opt_arg(flag)) + opt_arg(value)),
            global_args,
            interactive: false,
            sync: true,
        }
    }

    /// Pushes to a remote.
    pub fn git_push(flag: Option<&str>, value: Option<&str>, global_args: GlobalArgs) -> (cmd: Self)
        ensures
            cmd@ == Self::git_push_spec(opt_str_view(flag), opt_str_view(value), global_args@),
    {
        let mut list: Vec<String> = Vec::new();
        assert(args_view(list@) =~= Seq::<Seq<char>>::empty());
        push_arg(&mut list, "git");
        push_arg(&mut list, "push");
        push_opt_arg(&mut list, flag);
        push_opt_arg(&mut list, value);
        JjCommand { args: list, global_args, interactive: false, sync: true }
    }

    /// The invocation that [`JjCommand::git_remote_list`] makes.
    pub open spec fn git_remote_list_spec(global_args: GlobalArgsView) -> JjCommandView {
        JjCommandView {
            args: Seq::<Seq<char>>::empty().push("git"@).push("remote"@).push("list"@),
            global_args,
            interactive: false,
            sync: false,
        }
    }

    /// Lists the remotes.
    pub fn git_remote_list(global_args: GlobalArgs) -> (cmd: Self)
        ensures
            cmd@ == Self::git_remote_list_spec(global_args@),
    {
        let mut list: Vec<String> = Vec::new();
        assert(args_view(list@) =~= Seq::<Seq<char>>::empty());
        push_arg(&mut list, "git");
        push_arg(&mut list, "remote");
        push_arg(&mut list, "list");
        JjCommand { args: list, global_args, interactive: false, sync: false }
    }

    /// The invocation that [`JjCommand::interdiff`] makes.
    pub open spec fn interdiff_spec(from_change_id: Seq<char>, to_change_id: Seq<char>, maybe_file_path: Option<Seq<char>>, global_args: GlobalArgsView) -> JjCommandView {
        JjCommandView {
            args: (Seq::<Seq<char>>::empty().push("interdiff"@).push("--from"@).push(from_change_id).push("--to"@).push(to_change_id) + opt_arg(maybe_file_path)),
            global_args,
            interactive: true,
            sync: false,
        }
    }

    /// Compares the changes of two changes.
    pub fn interdiff(from_change_id: &str, to_change_id: &str, maybe_file_path: Option<&str>, global_args: GlobalArgs) -> (cmd: Self)
        ensures
            cmd@ == Self::interdiff_spec(from_change_id@, to_change_id@, opt_str_view(maybe_file_path), global_args@),
    {
        let mut list: Vec<String> = Vec::new();
        assert(args_view(list@) =~= Seq::<Seq<char>>::empty());
        push_arg(&mut list, "interdiff");
        push_arg(&mut list, "--from");
        push_arg(&mut list, from_change_id);
        push_arg(&mut list, "--to");
        push_arg(&mut list, to_change_id);
        push_opt_arg(&mut list, maybe_file_path);
        JjCommand { args: list, global_args, interactive: true, sync: false }
    }

    /// The invocation that [`JjCommand::metaedit`] makes.
    pub open spec fn metaedit_spec(change_id: Seq<char>, flag: Seq<char>, value: Option<Seq<char>>, global_args: GlobalArgsView) -> JjCommandView {
        JjCommandView {
            args: (Seq::<Seq<char>>::empty().push("metaedit"@).push(flag) + opt_arg(value)).push(change_id),
            global_args,
            interactive: false,
            sync: true,
        }
    }

    /// Edits the metadata of a change.
    pub fn metaedit(change_id: &str, flag: &str, value: Option<&str>, global_args: GlobalArgs) -> (cmd: Self)
        ensures
            cmd@ == Self::metaedit_spec(change_id@, flag@, opt_str_view(value), global_args@),
    {
        let mut list: Vec<String> = Vec::new();
        assert(args_view(list@) =~= Seq::<Seq<char>>::empty());
        push_arg(&mut list, "metaedit");
        push_arg(&mut list, flag);
        push_opt_arg(&mut list, value);
        push_arg(&mut list, change_id);
        JjCommand { args: list, global_args, interactive: false, sync: true }
    }

    /// The invocation that [`JjCommand::new`] makes.
    pub open spec fn new_spec(change_id: Seq<char>, args: Seq<Seq<char>>, global_args: GlobalArgsView) -> JjCommandView {
        JjCommandView {
            args: (Seq::<Seq<char>>::empty().push("new"@) + args).push(change_id),
            global_args,
            interactive: false,
            sync: true,
        }
    }

    /// Creates a change on another.
    pub fn new(change_id: &str, args: &[&str], global_args: GlobalArgs) -> (cmd: Self)
        ensures
            cmd@ == Self::new_spec(change_id@, list_args(args@), global_args@),
    {
        let mut list: Vec<String> = Vec::new();
        assert(args_view(list@) =~= Seq::<Seq<char>>::empty());
        push_arg(&mut list, "new");
        push_list_args(&mut list, args);
        push_arg(&mut list, change_id);
        JjCommand { args: list, global_args, interactive: false, sync: true }
    }

    /// The invocation that [`JjCommand::next_prev`] makes.
    pub open spec fn next_prev_spec(direction: Seq<char>, mode: Option<Seq<char>>, offset: Option<Seq<char>>, global_args: GlobalArgsView) -> JjCommandView {
        JjCommandView {
            args: ((Seq::<Seq<char>>::empty().push(direction) + opt_arg(mode)) + opt_arg(offset)),
            global_args,
            interactive: false,
            sync: true,
        }
    }

    /// Moves the working copy to a child or a parent.
    pub fn next_prev(direction: &str, mode: Option<&str>, offset: Option<&str>, global_args: GlobalArgs) -> (cmd: Self)
        ensures
            cmd@ == Self::next_prev_spec(direction@, opt_str_view(mode), opt_str_view(offset), global_args@),
    {
        let mut list: Vec<String> = Vec::new();
        assert(args_view(list@) =~= Seq::<Seq<char>>::empty());
        push_arg(&mut list, direction);
        push_opt_arg(&mut list, mode);
        push_opt_arg(&mut list, offset);
        JjCommand { args: list, global_args, interactive: false, sync: true }
    }

    /// The invocation that [`JjCommand::parallelize`] makes.
    pub open spec fn parallelize_spec(revset: Seq<char>, global_args: GlobalArgsView) -> JjCommandView {
        JjCommandView {
            args: Seq::<Seq<char>>::empty().push("parallelize"@).push(revset),
            global_args,
            interactive: false,
            sync: true,
        }
    }

    /// Makes changes siblings.
    pub fn parallelize(revset: &str, global_args: GlobalArgs) -> (cmd: Self)
        ensures
            cmd@ == Self::parallelize_spec(revset@, global_args@),
    {
        let mut list: Vec<String> = Vec::new();
        assert(args_view(list@) =~= Seq::<Seq<char>>::empty());
        push_arg(&mut list, "parallelize");
        push_arg(&mut list, revset);
        JjCommand { args: list, global_args, interactive: false, sync: true }
    }

    /// The invocation that [`JjCommand::rebase`] makes.
    pub open spec fn rebase_spec(source_type: Seq<char>, source_change_id: Seq<char>, destination_type: Seq<char>, destination: Seq<char>, global_args: GlobalArgsView) -> JjCommandView {
        JjCommandView {
            args: Seq::<Seq<char>>::empty().push("rebase"@).push(source_type).push(source_change_id).push(destination_type).push(destination),
            global_args,
            interactive: false,
            sync: true,
        }
    }

    /// Rebases changes.
    pub fn rebase(source_type: &str, source_change_id: &str, destination_type: &str, destination: &str, global_args: GlobalArgs) -> (cmd: Self)
        ensures
            cmd@ == Self::rebase_spec(source_type@, source_change_id@, destination_type@, destination@, global_args@),
    {
        let mut list: Vec<String> = Vec::new();
        assert(args_view(list@) =~= Seq::<Seq<char>>::empty());
        push_arg(&mut list, "rebase");
        push_arg(&mut list, source_type);
        push_arg(&mut list, source_change_id);
        push_arg(&mut list, destination_type);
        push_arg(&mut list, destination);
        JjCommand { args: list, global_args, interactive: false, sync: true }
    }

    /// The invocation that [`JjCommand::redo`] makes.
    pub open spec fn redo_spec(global_args: GlobalArgsView) -> JjCommandView {
        JjCommandView {
            args: Seq::<Seq<char>>::empty().push("redo"@),
            global_args,
            interactive: false,
            sync: true,
        }
    }

    /// Redoes the operation that was undone last.
    pub fn redo(global_args: GlobalArgs) -> (cmd: Self)
        ensures
            cmd@ == Self::redo_spec(global_args@),
    {
        let mut list: Vec<String> = Vec::new();
        assert(args_view(list@) =~= Seq::<Seq<char>>::empty());
        push_arg(&mut list, "redo");
        JjCommand { args: list, global_args, interactive: false, sync: true }
    }

    /// The invocation that [`JjCommand::resolve`] makes.
    pub open spec fn resolve_spec(change_id: Seq<char>, global_args: GlobalArgsView) -> JjCommandView {
        JjCommandView {
            args: Seq::<Seq<char>>::empty().push("resolve"@).push("-r"@).push(change_id),
            global_args,
            interactive: true,
            sync: true,
        }
    }

    /// Resolves conflicts, in the merge tool.
    pub fn resolve(change_id: &str, global_args: GlobalArgs) -> (cmd: Self)
        ensures
            cmd@ == Self::resolve_spec(change_id@, global_args@),
    {
        let mut list: Vec<String> = Vec::new();
        assert(args_view(list@) =~= Seq::<Seq<char>>::empty());
        push_arg(&mut list, "resolve");
        push_arg(&mut list, "-r");
        push_arg(&mut list, change_id);
        JjCommand { args: list, global_args, interactive: true, sync: true }
    }

    /// The invocation that [`JjCommand::restore`] makes.
    pub open spec fn restore_spec(flags: Seq<Seq<char>>, maybe_file_path: Option<Seq<char>>, global_args: GlobalArgsView) -> JjCommandView {
        JjCommandView {
            args: ((Seq::<Seq<char>>::empty().push("restore"@) + flags) + opt_arg(maybe_file_path)),
            global_args,
            interactive: false,
            sync: true,
        }
    }

    /// Restores paths from another change.
    pub fn restore(flags: &[&str], maybe_file_path: Option<&str>, global_args: GlobalArgs) -> (cmd: Self)
        ensures
            cmd@ == Self::restore_spec(list_args(flags@), opt_str_view(maybe_file_path), global_args@),
    {
        let mut list: Vec<String> = Vec::new();
        assert(args_view(list@) =~= Seq::<Seq<char>>::empty());
        push_arg(&mut list, "restore");
        push_list_args(&mut list, flags);
        push_opt_arg(&mut list, maybe_file_path);
        JjCommand { args: list, global_args, interactive: false, sync: true }
    }

    /// The invocation that [`JjCommand::revert`] makes.
    pub open spec fn revert_spec(revision: Seq<char>, destination_type: Seq<char>, destination: Seq<char>, global_args: GlobalArgsView) -> JjCommandView {
        JjCommandView {
            args: Seq::<Seq<char>>::empty().push("revert"@).push("-r"@).push(revision).push(destination_type).push(destination),
            global_args,
            interactive: false,
            sync: true,
        }
    }

    /// Applies the reverse of a change.
    pub fn revert(revision: &str, destination_type: &str, destination: &str, global_args: GlobalArgs) -> (cmd: Self)
        ensures
            cmd@ == Self::revert_spec(revision@, destination_type@, destination@, global_args@),
    {
        let mut list: Vec<String> = Vec::new();
        assert(args_view(list@) =~= Seq::<Seq<char>>::empty());
        push_arg(&mut list, "revert");
        push_arg(&mut list, "-r");
        push_arg(&mut list, revision);
        push_arg(&mut list, destination_type);
        push_arg(&mut list, destination);
        JjCommand { args: list, global_args, interactive: false, sync: true }
    }

    /// The invocation that [`JjCommand::show`] makes.
    pub open spec fn show_spec(change_id: Seq<char>, global_args: GlobalArgsView) -> JjCommandView {
        JjCommandView {
            args: Seq::<Seq<char>>::empty().push("show"@).push(change_id),
            global_args,
            interactive: true,
            sync: false,
        }
    }

    /// Shows a change.
    pub fn show(change_id: &str, global_args: GlobalArgs) -> (cmd: Self)
        ensures
            cmd@ == Self::show_spec(change_id@, global_args@),
    {
        let mut list: Vec<String> = Vec::new();
        assert(args_view(list@) =~= Seq::<Seq<char>>::empty());
        push_arg(&mut list, "show");
        push_arg(&mut list, change_id);
        JjCommand { args: list, global_args, interactive: true, sync: false }
    }

    /// The invocation that [`JjCommand::sign`] makes.
    pub open spec fn sign_spec(action: Seq<char>, revset: Seq<char>, global_args: GlobalArgsView) -> JjCommandView {
        JjCommandView {
            args: Seq::<Seq<char>>::empty().push(action).push("-r"@).push(revset),
            global_args,
            interactive: false,
            sync: true,
        }
    }

    /// Signs or unsigns changes.
    pub fn sign(action: &str, revset: &str, global_args: GlobalArgs) -> (cmd: Self)
        ensures
            cmd@ == Self::sign_spec(action@, revset@, global_args@),
    {
        let mut list: Vec<String> = Vec::new();
        assert(args_view(list@) =~= Seq::<Seq<char>>::empty());
        push_arg(&mut list, action);
        push_arg(&mut list, "-r");
        push_arg(&mut list, revset);
        JjCommand { args: list, global_args, interactive: false, sync: true }
    }

    /// The invocation that [`JjCommand::simplify_parents`] makes.
    pub open spec fn simplify_parents_spec(change_id: Seq<char>, mode: Seq<char>, global_args: GlobalArgsView) -> JjCommandView {
        JjCommandView {
            args: Seq::<Seq<char>>::empty().push("simplify-parents"@).push(mode).push(change_id),
            global_args,
            interactive: false,
            sync: true,
        }
    }

    /// Drops parents that are ancestors of other parents.
    pub fn simplify_parents(change_id: &str, mode: &str, global_args: GlobalArgs) -> (cmd: Self)
        ensures
            cmd@ == Self::simplify_parents_spec(change_id@, mode@, global_args@),
    {
        let mut list: Vec<String> = Vec::new();
        assert(args_view(list@) =~= Seq::<Seq<char>>::empty());
        push_arg(&mut list, "simplify-parents");
        push_arg(&mut list, mode);
        push_arg(&mut list, change_id);
        JjCommand { args: list, global_args, interactive: false, sync: true }
    }

    /// The invocation that [`JjCommand::split`] makes.
    pub open spec fn split_spec(change_id: Seq<char>, message: Seq<char>, global_args: GlobalArgsView) -> JjCommandView {
        JjCommandView {
            args: Seq::<Seq<char>>::empty().push("split"@).push("-r"@).push(change_id).push("-m"@).push(message),
            global_args,
            interactive: true,
            sync: true,
        }
    }

    /// Splits a change, in the diff editor.
    pub fn split(change_id: &str, message: &str, global_args: GlobalArgs) -> (cmd: Self)
        ensures
            cmd@ == Self::split_spec(change_id@, message@, global_args@),
    {
        let mut list: Vec<String> = Vec::new();
        assert(args_view(list@) =~= Seq::<Seq<char>>::empty());
        push_arg(&mut list, "split");
        push_arg(&mut list, "-r");
        push_arg(&mut list, change_id);
        push_arg(&mut list, "-m");
        push_arg(&mut list, message);
        JjCommand { args: list, global_args, interactive: true, sync: true }
    }

    /// The invocation that [`JjCommand::squash_noninteractive`] makes.
    pub open spec fn squash_noninteractive_spec(change_id: Seq<char>, maybe_file_path: Option<Seq<char>>, global_args: GlobalArgsView) -> JjCommandView {
        JjCommandView {
            args: (Seq::<Seq<char>>::empty().push("squash"@).push("-r"@).push(change_id).push("--use-destination-message"@) + opt_arg(maybe_file_path)),
            global_args,
            interactive: false,
            sync: true,
        }
    }

    /// Squashes a change without a description into its parent.
    pub fn squash_noninteractive(change_id: &str, maybe_file_path: Option<&str>, global_args: GlobalArgs) -> (cmd: Self)
        ensures
            cmd@ == Self::squash_noninteractive_spec(change_id@, opt_str_view(maybe_file_path), global_args@),
    {
        let mut list: Vec<String> = Vec::new();
        assert(args_view(list@) =~= Seq::<Seq<char>>::empty());
        push_arg(&mut list, "squash");
        push_arg(&mut list, "-r");
        push_arg(&mut list, change_id);
        push_arg(&mut list, "--use-destination-message");
        push_opt_arg(&mut list, maybe_file_path);
        JjCommand { args: list, global_args, interactive: false, sync: true }
    }

    /// The invocation that [`JjCommand::squash_interactive`] makes.
    pub open spec fn squash_interactive_spec(change_id: Seq<char>, maybe_file_path: Option<Seq<char>>, global_args: GlobalArgsView) -> JjCommandView {
        JjCommandView {
            args: (Seq::<Seq<char>>::empty().push("squash"@).push("-r"@).push(change_id) + opt_arg(maybe_file_path)),
            global_args,
            interactive: true,
            sync: true,
        }
    }

    /// Squashes a change into its parent, the description in the editor.
    pub fn squash_interactive(change_id: &str, maybe_file_path: Option<&str>, global_args: GlobalArgs) -> (cmd: Self)
        ensures
            cmd@ == Self::squash_interactive_spec(change_id@, opt_str_view(maybe_file_path), global_args@),
    {
        let mut list: Vec<String> = Vec::new();
        assert(args_view(list@) =~= Seq::<Seq<char>>::empty());
        push_arg(&mut list, "squash");
        push_arg(&mut list, "-r");
        push_arg(&mut list, change_id);
        push_opt_arg(&mut list, maybe_file_path);
        JjCommand { args: list, global_args, interactive: true, sync: true }
    }

    /// The invocation that [`JjCommand::squash_into_interactive`] makes.
    pub open spec fn squash_into_interactive_spec(from_change_id: Seq<char>, into_change_id: Seq<char>, maybe_file_path: Option<Seq<char>>, global_args: GlobalArgsView) -> JjCommandView {
        JjCommandView {
            args: (Seq::<Seq<char>>::empty().push("squash"@).push("--from"@).push(from_change_id).push("--into"@).push(into_change_id) + opt_arg(maybe_file_path)),
            global_args,
            interactive: true,
            sync: true,
        }
    }

    /// Squashes a change into another, the description in the editor.
    pub fn squash_into_interactive(from_change_id: &str, into_change_id: &str, maybe_file_path: Option<&str>, global_args: GlobalArgs) -> (cmd: Self)
        ensures
            cmd@ == Self::squash_into_interactive_spec(from_change_id@, into_change_id@, opt_str_view(maybe_file_path), global_args@),
    {
        let mut list: Vec<String> = Vec::new();
        assert(args_view(list@) =~= Seq::<Seq<char>>::empty());
        push_arg(&mut list, "squash");
        push_arg(&mut list, "--from");
        push_arg(&mut list, from_change_id);
        push_arg(&mut list, "--into");
        push_arg(&mut list, into_change_id);
        push_opt_arg(&mut list, maybe_file_path);
        JjCommand { args: list, global_args, interactive: true, sync: true }
    }

    /// The invocation that [`JjCommand::status`] makes.
    pub open spec fn status_spec(global_args: GlobalArgsView) -> JjCommandView {
        JjCommandView {
            args: Seq::<Seq<char>>::empty().push("status"@),
            global_args,
            interactive: true,
            sync: false,
        }
    }

    /// Shows the status of the working copy.
    pub fn status(global_args: GlobalArgs) -> (cmd: Self)
        ensures
            cmd@ == Self::status_spec(global_args@),
    {
        let mut list: Vec<String> = Vec::new();
        assert(args_view(list@) =~= Seq::<Seq<char>>::empty());
        push_arg(&mut list, "status");
        JjCommand { args: list, global_args, interactive: true, sync: false }
    }

    /// The invocation that [`JjCommand::tug`] makes.
    pub open spec fn tug_spec(global_args: GlobalArgsView) -> JjCommandView {
        JjCommandView {
            args: Seq::<Seq<char>>::empty().push("bookmark"@).push("move"@).push("--from"@).push("heads(::@- & bookmarks())"@).push("--to"@).push("@"@),
            global_args,
            interactive: false,
            sync: true,
        }
    }

    /// Moves the nearest bookmarks of the ancestors to the working copy.
    pub fn tug(global_args: GlobalArgs) -> (cmd: Self)
        ensures
            cmd@ == Self::tug_spec(global_args@),
    {
        let mut list: Vec<String> = Vec::new();
        assert(args_view(list@) =~= Seq::<Seq<char>>::empty());
        push_arg(&mut list, "bookmark");
        push_arg(&mut list, "move");
        push_arg(&mut list, "--from");
        push_arg(&mut list, "heads(::@- & bookmarks())");
        push_arg(&mut list, "--to");
        push_arg(&mut list, "@");
        JjCommand { args: list, global_args, interactive: false, sync: true }
    }

    /// The invocation that [`JjCommand::undo`] makes.
    pub open spec fn undo_spec(global_args: GlobalArgsView) -> JjCommandView {
        JjCommandView {
            args: Seq::<Seq<char>>::empty().push("undo"@),
            global_args,
            interactive: false,
            sync: true,
        }
    }

    /// Undoes the last operation.
    pub fn undo(global_args: GlobalArgs) -> (cmd: Self)
        ensures
            cmd@ == Self::undo_spec(global_args@),
    {
        let mut list: Vec<String> = Vec::new();
        assert(args_view(list@) =~= Seq::<Seq<char>>::empty());
        push_arg(&mut list, "undo");
        JjCommand { args: list, global_args, interactive: false, sync: true }
    }

    /// The invocation that [`JjCommand::workspace_add`] makes.
    pub open spec fn workspace_add_spec(path: Seq<char>, global_args: GlobalArgsView) -> JjCommandView {
        JjCommandView {
            args: Seq::<Seq<char>>::empty().push("workspace"@).push("add"@).push(path),
            global_args,
            interactive: true,
            sync: true,
        }
    }

    /// Adds a workspace.
    pub fn workspace_add(path: &str, global_args: GlobalArgs) -> (cmd: Self)
        ensures
            cmd@ == Self::workspace_add_spec(path@, global_args@),
    {
        let mut list: Vec<String> = Vec::new();
        assert(args_view(list@) =~= Seq::<Seq<char>>::empty());
        push_arg(&mut list, "workspace");
        push_arg(&mut list, "add");
        push_arg(&mut list, path);
        JjCommand { args: list, global_args, interactive: true, sync: true }
    }

    /// The invocation that [`JjCommand::workspace_forget`] makes.
    pub open spec fn workspace_forget_spec(workspace_name: Seq<char>, global_args: GlobalArgsView) -> JjCommandView {
        JjCommandView {
            args: Seq::<Seq<char>>::empty().push("workspace"@).push("forget"@).push(workspace_name),
            global_args,
            interactive: false,
            sync: true,
        }
    }

    /// Forgets a workspace.
    pub fn workspace_forget(workspace_name: &str, global_args: GlobalArgs) -> (cmd: Self)
        ensures
            cmd@ == Self::workspace_forget_spec(workspace_name@, global_args@),
    {
        let mut list: Vec<String> = Vec::new();
        assert(args_view(list@) =~= Seq::<Seq<char>>::empty());
        push_arg(&mut list, "workspace");
        push_arg(&mut list, "forget");
        push_arg(&mut list, workspace_name);
        JjCommand { args: list, global_args, interactive: false, sync: true }
    }

    /// The invocation that [`JjCommand::workspace_list`] makes.
    pub open spec fn workspace_list_spec(global_args: GlobalArgsView) -> JjCommandView {
        JjCommandView {
            args: Seq::<Seq<char>>::empty().push("workspace"@).push("list"@),
            global_args,
            interactive: false,
            sync: false,
        }
    }

    /// Lists the workspaces.
    pub fn workspace_list(global_args: GlobalArgs) -> (cmd: Self)
        ensures
            cmd@ == Self::workspace_list_spec(global_args@),
    {
        let mut list: Vec<String> = Vec::new();
        assert(args_view(list@) =~= Seq::<Seq<char>>::empty());
        push_arg(&mut list, "workspace");
        push_arg(&mut list, "list");
        JjCommand { args: list, global_args, interactive: false, sync: false }
    }

    /// The invocation that [`JjCommand::workspace_rename`] makes.
    pub open spec fn workspace_rename_spec(new_name: Seq<char>, global_args: GlobalArgsView) -> JjCommandView {
        JjCommandView {
            args: Seq::<Seq<char>>::empty().push("workspace"@).push("rename"@).push(new_name),
            global_args,
            interactive: false,
            sync: true,
        }
    }

    /// Renames the current workspace.
    pub fn workspace_rename(new_name: &str, global_args: GlobalArgs) -> (cmd: Self)
        ensures
            cmd@ == Self::workspace_rename_spec(new_name@, global_args@),
    {
        let mut list: Vec<String> = Vec::new();
        assert(args_view(list@) =~= Seq::<Seq<char>>::empty());
        push_arg(&mut list, "workspace");
        push_arg(&mut list, "rename");
        push_arg(&mut list, new_name);
        JjCommand { args: list, global_args, interactive: false, sync: true }
    }

    /// The invocation that [`JjCommand::workspace_root`] makes.
    pub open spec fn workspace_root_spec(global_args: GlobalArgsView) -> JjCommandView {
        JjCommandView {
            args: Seq::<Seq<char>>::empty().push("workspace"@).push("root"@),
            global_args,
            interactive: false,
            sync: false,
        }
    }

    /// Shows the root of the current workspace.
    pub fn workspace_root(global_args: GlobalArgs) -> (cmd: Self)
        ensures
            cmd@ == Self::workspace_root_spec(global_args@),
    {
        let mut list: Vec<String> = Vec::new();
        assert(args_view(list@) =~= Seq::<Seq<char>>::empty());
        push_arg(&mut list, "workspace");
        push_arg(&mut list, "root");
        JjCommand { args: list, global_args, interactive: false, sync: false }
    }

    /// The invocation that [`JjCommand::workspace_update_stale`] makes.
    pub open spec fn workspace_update_stale_spec(global_args: GlobalArgsView) -> JjCommandView {
        JjCommandView {
            args: Seq::<Seq<char>>::empty().push("workspace"@).push("update-stale"@),
            global_args,
            interactive: false,
            sync: true,
        }
    }

    /// Updates a workspace that has become stale.
    pub fn workspace_update_stale(global_args: GlobalArgs) -> (cmd: Self)
        ensures
            cmd@ == Self::workspace_update_stale_spec(global_args@),
    {
        let mut list: Vec<String> = Vec::new();
        assert(args_view(list@) =~= Seq::<Seq<char>>::empty());
        push_arg(&mut list, "workspace");
        push_arg(&mut list, "update-stale");
        JjCommand { args: list, global_args, interactive: false, sync: true }
    }

}

} // verus!
