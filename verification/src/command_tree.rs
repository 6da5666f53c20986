//! The keystroke trie: multi-key sequences resolve to actions, and every
//! menu on the way carries grouped help for the keys below it.

use vstd::prelude::*;
use vstd::string::*;
use std::collections::HashMap;
use std::hash::RandomState;
use indexmap::IndexMap;
use crate::keys::{codes_of, key_label, names_code, names_key, Key};
use crate::help::{help_text, render_help_text, sort_help_rows, sorted_help};
use crate::text::{opt_text_view, raw_span, Line, Span, SpanView, Text, TextColor, TextStyle};
use crate::update::Message;

verus! {

broadcast use vstd::string::group_string_axioms;

#[verifier::external_type_specification]
#[verifier::external_body]
#[verifier::reject_recursive_types(K)]
#[verifier::reject_recursive_types(V)]
#[verifier::reject_recursive_types(S)]
pub struct ExIndexMap<K, V, S>(IndexMap<K, V, S>);

/// The help of one menu: for each group, in the order in which the groups
/// were first used, the rows `(key label, help text)` in registration order.
pub type HelpEntries = IndexMap<String, Vec<(String, String)>, RandomState>;

/// The rows of a help group as mathematical values.
pub type HelpRows = Seq<(Seq<char>, Seq<char>)>;

/// The groups of a help listing as mathematical values.
pub type HelpView = Seq<(Seq<char>, HelpRows)>;

/// What a help map holds, in its iteration order.
pub uninterp spec fn help_view(m: IndexMap<String, Vec<(String, String)>, RandomState>) -> Seq<(Seq<char>, Seq<(Seq<char>, Seq<char>)>)>;

pub open spec fn rows_view(rows: Seq<(String, String)>) -> HelpRows {
    rows.map_values(|r: (String, String)| (r.0@, r.1@))
}

/// The index of the first group with the given name, or -1.
pub open spec fn group_index(h: HelpView, group: Seq<char>) -> int
    decreases h.len(),
{
    if h.len() == 0 {
        -1
    } else if h.last().0 == group && group_index(h.drop_last(), group) < 0 {
        h.len() - 1
    } else {
        group_index(h.drop_last(), group)
    }
}

/// The listing with the rows of one group replaced, or with the group added
/// at the end where it is new.
pub open spec fn group_insert(h: HelpView, group: Seq<char>, rows: HelpRows) -> HelpView {
    let i = group_index(h, group);
    if i >= 0 {
        h.update(i, (group, rows))
    } else {
        h.push((group, rows))
    }
}

/// The rows that a group has so far; none where the group is new.
pub open spec fn group_rows(h: HelpView, group: Seq<char>) -> HelpRows {
    let i = group_index(h, group);
    if i >= 0 {
        h[i].1
    } else {
        Seq::empty()
    }
}

/// The listing after one more row was registered under a group.
pub open spec fn help_add(h: HelpView, group: Seq<char>, label: Seq<char>, text: Seq<char>) -> HelpView {
    group_insert(h, group, group_rows(h, group).push((label, text)))
}

pub proof fn lemma_group_index(h: HelpView, group: Seq<char>)
    ensures
        -1 <= group_index(h, group) < h.len(),
        group_index(h, group) >= 0 ==> h[group_index(h, group)].0 == group,
        group_index(h, group) < 0 ==> forall|i: int| 0 <= i < h.len() ==> (#[trigger] h[i]).0 != group,
        forall|i: int| 0 <= i < group_index(h, group) ==> (#[trigger] h[i]).0 != group,
        (forall|i: int| 0 <= i < h.len() ==> (#[trigger] h[i]).0 != group) ==> group_index(h, group) < 0,
    decreases h.len(),
{
    if h.len() > 0 {
        lemma_group_index(h.drop_last(), group);
        assert forall|i: int| 0 <= i < h.len() - 1 implies h.drop_last()[i] == #[trigger] h[i] by {}
        if group_index(h, group) < 0 {
            assert forall|i: int| 0 <= i < h.len() implies (#[trigger] h[i]).0 != group by {
                if i < h.len() - 1 {
                    assert(h.drop_last()[i] == h[i]);
                }
            }
        }
        if forall|i: int| 0 <= i < h.len() ==> (#[trigger] h[i]).0 != group {
            assert(h.last() == h[h.len() - 1]);
            assert forall|i: int| 0 <= i < h.drop_last().len() implies (#[trigger] h.drop_last()[i]).0
                != group by {
                assert(h.drop_last()[i] == h[i]);
            }
        }
    }
}

/// `IndexMap::new`: the map starts without any group.
#[verifier::external_body]
pub(crate) fn help_new() -> (m: HelpEntries)
    ensures
        help_view(m) == Seq::<(Seq<char>, HelpRows)>::empty(),
{
    IndexMap::new()
}

/// `IndexMap::len`: the number of groups.
#[verifier::external_body]
pub(crate) fn help_len(m: &HelpEntries) -> (n: usize)
    ensures
        n == help_view(*m).len(),
{
    m.len()
}

/// `IndexMap::get_index`: the group at a place in the iteration order, and
/// nothing beyond the last place. The map holds no name twice, so the place
/// is the first, and only, one with that name.
#[verifier::external_body]
pub(crate) fn help_get_index(m: &HelpEntries, i: usize) -> (r: Option<(&String, &Vec<(String, String)>)>)
    ensures
        i < help_view(*m).len() ==> r.is_some() && r.unwrap().0@ == help_view(*m)[i as int].0
            && rows_view(r.unwrap().1@) == help_view(*m)[i as int].1 && group_index(
            help_view(*m),
            r.unwrap().0@,
        ) == i,
        i >= help_view(*m).len() ==> r.is_none(),
{
    m.get_index(i)
}

/// `IndexMap::get`: the rows stored under a group name, if the map has it.
#[verifier::external_body]
pub(crate) fn help_get<'a>(m: &'a HelpEntries, group: &str) -> (r: Option<&'a Vec<(String, String)>>)
    ensures
        r.is_some() == (group_index(help_view(*m), group@) >= 0),
        r.is_some() ==> rows_view(r.unwrap()@) == group_rows(help_view(*m), group@),
{
    m.get(group)
}

/// `IndexMap::insert`: a group that the map has keeps its place and gets the
/// new rows; a new group goes last.
#[verifier::external_body]
pub(crate) fn help_insert(m: &mut HelpEntries, group: String, rows: Vec<(String, String)>)
    ensures
        help_view(*final(m)) == group_insert(help_view(*old(m)), group@, rows_view(rows@)),
{
    m.insert(group, rows);
}

/// A copy of the rows of a help group.
fn duplicate_rows(rows: &Vec<(String, String)>) -> (r: Vec<(String, String)>)
    ensures
        rows_view(r@) == rows_view(rows@),
{
    let mut r: Vec<(String, String)> = Vec::new();
    let mut i: usize = 0;
    while i < rows.len()
        invariant
            i <= rows.len(),
            r@.len() == i,
            forall|j: int| 0 <= j < i ==> (#[trigger] r@[j]).0@ == rows@[j].0@ && r@[j].1@ == rows@[j].1@,
        decreases rows.len() - i,
    {
        r.push((rows[i].0.clone(), rows[i].1.clone()));
        i = i + 1;
    }
    assert(rows_view(r@) =~= rows_view(rows@));
    r
}

/// What a node of the trie says of itself: its action, and the help of its
/// menu where it has one.
pub struct NodeModel {
    pub action: Option<Message>,
    pub children: Option<HelpView>,
}

/// The trie as a map from key sequences (by key code) to the nodes they
/// reach. The empty sequence reaches the root.
pub type TrieModel = Map<Seq<u64>, NodeModel>;

/// The menu below a node: the child for each key, and the help to show.
#[derive(Debug)]
pub struct CommandTreeNodeChildren {
    pub nodes: HashMap<u64, CommandTreeNode>,
    pub help: HelpEntries,
}

/// A node of the trie. A node with an action and children fires its action
/// at once and stays open for the keys below it.
#[derive(Debug)]
pub struct CommandTreeNode {
    pub children: Option<CommandTreeNodeChildren>,
    pub action: Option<Message>,
}

#[derive(Debug)]
pub struct CommandTree(pub CommandTreeNode);

/// The node that registering puts at `path`, or nothing: the menu at the
/// target's prefix gets one more help row, the new subtree hangs at the
/// target in place of whatever was there, and the rest stays.
pub open spec fn registered_at(
    m: TrieModel,
    target: Seq<u64>,
    sub: TrieModel,
    group: Seq<char>,
    label: Seq<char>,
    text: Seq<char>,
    path: Seq<u64>,
) -> Option<NodeModel> {
    let prefix = target.drop_last();
    if path == prefix {
        Some(
            NodeModel {
                action: m[prefix].action,
                children: Some(help_add(m[prefix].children.unwrap(), group, label, text)),
            },
        )
    } else if target.is_prefix_of(path) {
        if sub.contains_key(path.skip(target.len() as int)) {
            Some(sub[path.skip(target.len() as int)])
        } else {
            None
        }
    } else if m.contains_key(path) {
        Some(m[path])
    } else {
        None
    }
}

/// The trie after the subtree `sub` was registered at `target` with a help
/// row `(label, text)` under `group`.
pub open spec fn registered(
    m: TrieModel,
    target: Seq<u64>,
    sub: TrieModel,
    group: Seq<char>,
    label: Seq<char>,
    text: Seq<char>,
) -> TrieModel {
    Map::new(
        |p: Seq<u64>| registered_at(m, target, sub, group, label, text, p).is_some(),
        |p: Seq<u64>| registered_at(m, target, sub, group, label, text, p).unwrap(),
    )
}

/// Whether a key sequence reaches a node with a menu.
pub open spec fn is_menu(m: TrieModel, path: Seq<u64>) -> bool {
    m.contains_key(path) && m[path].children.is_some()
}

/// Whether something can be registered at `target`: the target has a last
/// key, and its prefix reaches a node with a menu.
pub open spec fn can_register(m: TrieModel, target: Seq<u64>) -> bool {
    target.len() > 0 && is_menu(m, target.drop_last())
}

impl CommandTreeNodeChildren {
    fn new() -> (c: Self)
        ensures
            c.nodes@ == Map::<u64, CommandTreeNode>::empty(),
            help_view(c.help) == Seq::<(Seq<char>, HelpRows)>::empty(),
    {
        Self { nodes: HashMap::new(), help: help_new() }
    }

    pub fn get_node(&self, key_code: &Key) -> (r: Option<&CommandTreeNode>)
        ensures
            r.is_some() == self.nodes@.contains_key(key_code.spec_code()),
            r.is_some() ==> *r.unwrap() == self.nodes@[key_code.spec_code()],
    {
        let code = key_code.code();
        self.nodes.get(&code)
    }

    /// Puts `node` under `key_code` and adds the help row for it. The label
    /// of the row is the name of the key as the terminal library prints it.
    fn add_child(&mut self, help_group_text: &str, help_text: &str, key_code: Key, node: CommandTreeNode)
        ensures
            final(self).nodes@ == old(self).nodes@.insert(key_code.spec_code(), node),
            exists|label: Seq<char>|
                names_key(label, key_code) && help_view(final(self).help) == #[trigger] help_add(
                    help_view(old(self).help),
                    help_group_text@,
                    label,
                    help_text@,
                ),
    {
        let code = key_code.code();
        self.nodes.insert(code, node);
        let label = key_label(key_code);
        let mut rows = match help_get(&self.help, help_group_text) {
            Some(rows) => duplicate_rows(rows),
            None => Vec::new(),
        };
        let ghost before = rows_view(rows@);
        assert(before =~= group_rows(help_view(old(self).help), help_group_text@));
        rows.push((label, String::from_str(help_text)));
        assert(rows_view(rows@) =~= before.push((label@, help_text@)));
        help_insert(&mut self.help, String::from_str(help_group_text), rows);
        assert(help_view(self.help) == help_add(
            help_view(old(self).help),
            help_group_text@,
            label@,
            help_text@,
        ));
    }
}

impl CommandTreeNodeChildren {
    /// The help of the menu with the rows of every group sorted.
    fn get_help_entries(&self) -> (sorted: HelpEntries)
        ensures
            help_view(sorted) == sorted_help(help_view(self.help)),
    {
        let ghost h = help_view(self.help);
        let mut sorted = help_new();
        let n = help_len(&self.help);
        let mut i: usize = 0;
        assert(help_view(sorted) =~= sorted_help(h).take(0));
        while i < n
            invariant
                i <= n,
                n == h.len(),
                h == help_view(self.help),
                help_view(sorted) == sorted_help(h).take(i as int),
            decreases n - i,
        {
            match help_get_index(&self.help, i) {
                Some((name, rows)) => {
                    let ghost before = help_view(sorted);
                    proof {
                        lemma_group_index(h, name@);
                        assert forall|k: int| 0 <= k < before.len() implies (#[trigger] before[k]).0
                            != name@ by {
                            assert(before[k].0 == h[k].0);
                        }
                        lemma_group_index(before, name@);
                    }
                    help_insert(&mut sorted, name.clone(), sort_help_rows(rows));
                    assert(help_view(sorted) =~= sorted_help(h).take(i + 1));
                },
                None => {
                    assert(false);
                },
            }
            i = i + 1;
        }
        assert(sorted_help(h).take(n as int) =~= sorted_help(h));
        sorted
    }

    /// The help listing of the menu as text.
    pub fn get_help(&self) -> (text: Text)
        ensures
            text@ == help_text(sorted_help(help_view(self.help))),
    {
        let entries = self.get_help_entries();
        render_help_text(&entries)
    }
}

/// The rows of the help group on moving about.
pub open spec fn navigation_rows() -> HelpRows {
    seq![
        ("Tab "@, "Toggle folding"@),
        ("PgDn"@, "Move down page"@),
        ("PgUp"@, "Move up page"@),
        ("j/\u{2193} "@, "Move down"@),
        ("k/\u{2191} "@, "Move up"@),
        ("l/\u{2192} "@, "Next sibling"@),
        ("h/\u{2190} "@, "Prev sibling"@),
        ("K"@, "Select parent"@),
        ("@"@, "Select @ change"@),
    ]
}

/// The rows of the help group on the keys that are no commands.
pub open spec fn general_rows() -> HelpRows {
    seq![
        ("Spc/Ctrl-r"@, "Refresh log tree"@),
        ("Esc"@, "Clear app state"@),
        ("L"@, "Set log revset"@),
        ("I"@, "Toggle --ignore-immutable"@),
        ("?"@, "Show help"@),
        ("q"@, "Quit"@),
    ]
}

fn help_row(key: &str, text: &str) -> (row: (String, String))
    ensures
        row.0@ == key@,
        row.1@ == text@,
{
    (String::from_str(key), String::from_str(text))
}

/// The first span of the line that reports an unbound key.
pub open spec fn unbound_head() -> SpanView {
    SpanView { content: " Unbound suffix: "@, style: TextStyle::spec_fg(TextColor::Red) }
}

/// The line that reports that the key with the given label is not bound.
pub open spec fn unbound_line(label: Seq<char>) -> Seq<SpanView> {
    seq![
        unbound_head(),
        raw_span("'"@),
        SpanView { content: label, style: TextStyle::spec_fg(TextColor::Green) },
        raw_span("'"@),
    ]
}

/// Whether a line begins with the given span.
pub open spec fn begins_with(line: Seq<SpanView>, head: SpanView) -> bool {
    line.len() > 0 && line[0] == head
}

/// The info text after an unbound key was reported in it: a report at the
/// end of the text gives way, with the line before it, to the new report; a
/// text that does not begin with a report gets a blank line first.
pub open spec fn unbound_shown(info: Option<Seq<Seq<SpanView>>>, label: Seq<char>) -> Seq<Seq<SpanView>> {
    match info {
        None => seq![unbound_line(label)],
        Some(text) => {
            let add_blank = !(text.len() > 0 && begins_with(text[0], unbound_head()));
            let kept = if text.len() > 0 && begins_with(text.last(), unbound_head()) {
                if text.len() >= 2 {
                    text.take(text.len() - 2)
                } else {
                    Seq::empty()
                }
            } else {
                text
            };
            let spaced = if add_blank {
                kept.push(Seq::empty())
            } else {
                kept
            };
            spaced.push(unbound_line(label))
        },
    }
}

fn line_begins_with_unbound(line: &Line) -> (r: bool)
    ensures
        r == begins_with(line@, unbound_head()),
{
    if line.spans.len() == 0 {
        return false;
    }
    let first = &line.spans[0];
    assert(line@[0] == first@);
    let same_style = match (first.style.fg, first.style.bg) {
        (Some(TextColor::Red), None) => first.style.add_modifier == 0 && first.style.sub_modifier == 0,
        _ => false,
    };
    same_style && crate::strings::str_eq(first.content.as_str(), " Unbound suffix: ")
}

/// Reports in the info text that the key with the given label is unbound.
pub fn show_unbound_error(info_list: &mut Option<Text>, label: &str)
    ensures
        final(info_list).is_some(),
        final(info_list).unwrap()@ == unbound_shown(
            opt_text_view(*old(info_list)),
            label@,
        ),
{
    let mut spans: Vec<Span> = Vec::new();
    spans.push(Span::styled(" Unbound suffix: ", TextStyle::fg(TextColor::Red)));
    spans.push(Span::raw("'"));
    spans.push(Span::styled(label, TextStyle::fg(TextColor::Green)));
    spans.push(Span::raw("'"));
    let error_line = Line { spans };
    assert(error_line@ =~= unbound_line(label@));
    match info_list.take() {
        None => {
            let mut lines: Vec<Line> = Vec::new();
            lines.push(error_line);
            let text = Text { lines };
            assert(text@ =~= seq![unbound_line(label@)]);
            *info_list = Some(text);
        },
        Some(text) => {
            let ghost before = text@;
            let mut lines = text.lines;
            let add_blank_line = !(lines.len() > 0 && line_begins_with_unbound(&lines[0]));
            if lines.len() > 0 && line_begins_with_unbound(&lines[lines.len() - 1]) {
                lines.pop();
                lines.pop();
            }
            if add_blank_line {
                lines.push(Line::blank());
            }
            lines.push(error_line);
            let shown = Text { lines };
            assert(shown@ =~= unbound_shown(Some(before), label@));
            *info_list = Some(shown);
        },
    }
}

/// Reports in the info text that a key has no binding where it was typed.
/// The key is named as the terminal library prints it.
pub fn display_unbound_error_lines(info_list: &mut Option<Text>, key_code: &Key)
    ensures
        final(info_list).is_some(),
        exists|label: Seq<char>|
            names_key(label, *key_code) && final(info_list).unwrap()@ == #[trigger] unbound_shown(
                opt_text_view(*old(info_list)),
                label,
            ),
{
    let label = key_label(*key_code);
    show_unbound_error(info_list, label.as_str());
    assert(names_key(label@, *key_code) && info_list.unwrap()@ == unbound_shown(
        opt_text_view(*old(info_list)),
        label@,
    ));
}

impl CommandTreeNode {
    /// What the node says of itself.
    pub open spec fn info(self) -> NodeModel {
        NodeModel {
            action: self.action,
            children: match self.children {
                Some(c) => Some(help_view(c.help)),
                None => None,
            },
        }
    }

    /// The node reached from this one by the keys of `path`.
    pub open spec fn descend(self, path: Seq<u64>) -> Option<CommandTreeNode>
        decreases path.len(),
    {
        if path.len() == 0 {
            Some(self)
        } else {
            match self.children {
                None => None,
                Some(c) => if c.nodes@.contains_key(path[0]) {
                    c.nodes@[path[0]].descend(path.drop_first())
                } else {
                    None
                },
            }
        }
    }

    pub fn new_children() -> (n: Self)
        ensures
            n.action.is_none(),
            n.children.is_some(),
            n.children.unwrap().nodes@ == Map::<u64, CommandTreeNode>::empty(),
            help_view(n.children.unwrap().help) == Seq::<(Seq<char>, HelpRows)>::empty(),
            n@ == leaf_model(None, true),
    {
        let n = Self { children: Some(CommandTreeNodeChildren::new()), action: None };
        proof {
            n.lemma_leaf_view();
        }
        n
    }

    pub fn new_action(action: Message) -> (n: Self)
        ensures
            n.action == Some(action),
            n.children.is_none(),
            n@ == leaf_model(Some(action), false),
    {
        let n = Self { children: None, action: Some(action) };
        proof {
            n.lemma_leaf_view();
        }
        n
    }

    pub fn new_action_with_children(action: Message) -> (n: Self)
        ensures
            n.action == Some(action),
            n.children.is_some(),
            n.children.unwrap().nodes@ == Map::<u64, CommandTreeNode>::empty(),
            n@ == leaf_model(Some(action), true),
    {
        let mut node = Self::new_children();
        node.action = Some(action);
        proof {
            node.lemma_leaf_view();
        }
        node
    }

    /// A node without any child is, as a trie, the root alone.
    pub proof fn lemma_leaf_view(self)
        requires
            self.children.is_some() ==> self.children.unwrap().nodes@ == Map::<u64, CommandTreeNode>::empty(),
        ensures
            self@ == map![Seq::<u64>::empty() => self.info()],
    {
        assert forall|p: Seq<u64>| #[trigger] self@.contains_key(p) <==> p == Seq::<u64>::empty() by {
            if p.len() == 0 {
                assert(p =~= Seq::<u64>::empty());
            }
        }
        assert(self@ =~= map![Seq::<u64>::empty() => self.info()]);
    }

    /// Descending by `a + b` is descending by `a` and then by `b`.
    pub proof fn lemma_descend_concat(self, a: Seq<u64>, b: Seq<u64>)
        ensures
            self.descend(a + b) == match self.descend(a) {
                Some(n) => n.descend(b),
                None => None,
            },
        decreases a.len(),
    {
        if a.len() == 0 {
            assert(a + b =~= b);
        } else {
            assert((a + b)[0] == a[0]);
            assert((a + b).drop_first() =~= a.drop_first() + b);
            match self.children {
                None => {},
                Some(c) => {
                    if c.nodes@.contains_key(a[0]) {
                        c.nodes@[a[0]].lemma_descend_concat(a.drop_first(), b);
                    }
                },
            }
        }
    }
}

impl View for CommandTreeNode {
    type V = TrieModel;

    open spec fn view(&self) -> TrieModel {
        Map::new(
            |p: Seq<u64>| self.descend(p).is_some(),
            |p: Seq<u64>| self.descend(p).unwrap().info(),
        )
    }
}

impl View for CommandTree {
    type V = TrieModel;

    open spec fn view(&self) -> TrieModel {
        self.0@
    }
}

/// One row of a key table: help group, help text, key sequence, and the node
/// to put at the end of the sequence.
pub type Binding = (&'static str, &'static str, Vec<Key>, CommandTreeNode);

/// A row of a key table as a mathematical value; the node stands as the trie
/// that it is the root of.
pub struct Row {
    pub group: Seq<char>,
    pub text: Seq<char>,
    pub keys: Seq<Key>,
    pub node: TrieModel,
}

pub open spec fn binding_row(b: Binding) -> Row {
    Row { group: b.0@, text: b.1@, keys: b.2@, node: b.3@ }
}

/// The rows of a table of bindings.
pub open spec fn binding_rows(entries: Seq<Binding>) -> Seq<Row> {
    entries.map_values(|b: Binding| binding_row(b))
}

/// The trie of a single node.
pub open spec fn leaf_model(action: Option<Message>, menu: bool) -> TrieModel {
    map![Seq::<u64>::empty() => NodeModel {
        action,
        children: if menu {
            Some(Seq::empty())
        } else {
            None
        },
    }]
}

/// Whether a table can be registered row by row: each row's keys but the
/// last reach a menu by the time the row is due.
pub open spec fn registrable(m: TrieModel, rows: Seq<Row>) -> bool
    decreases rows.len(),
{
    rows.len() > 0 ==> {
        let r = rows[0];
        &&& can_register(m, codes_of(r.keys))
        &&& forall|label: Seq<char>|
            registrable(
                #[trigger] registered(m, codes_of(r.keys), r.node, r.group, label, r.text),
                rows.drop_first(),
            )
    }
}

/// Whether `after` is what registering the rows of a table in `before`,
/// first to last, gives, each help row labelled with a name of its last key.
pub open spec fn registered_rows(before: TrieModel, rows: Seq<Row>, after: TrieModel) -> bool
    decreases rows.len(),
{
    if rows.len() == 0 {
        after == before
    } else {
        let r = rows.last();
        exists|mid: TrieModel|
            #![trigger registered_one(mid, codes_of(r.keys), r.node, r.group, r.text, after)]
            registered_rows(before, rows.drop_last(), mid) && registered_one(
                mid,
                codes_of(r.keys),
                r.node,
                r.group,
                r.text,
                after,
            )
    }
}

/// Whether `after` is `before` with `node` registered at `target`, a help
/// row added to the menu above it, labelled with a name of the last key.
pub open spec fn registered_one(
    before: TrieModel,
    target: Seq<u64>,
    node: TrieModel,
    group: Seq<char>,
    text: Seq<char>,
    after: TrieModel,
) -> bool {
    &&& can_register(before, target)
    &&& exists|label: Seq<char>|
        names_code(label, target.last()) && after == #[trigger] registered(
            before,
            target,
            node,
            group,
            label,
            text,
        )
}

/// Registers `node` at the keys `key_codes[depth..]` below `at`.
pub(crate) fn insert_below(
    at: &mut CommandTreeNode,
    key_codes: &Vec<Key>,
    depth: usize,
    help_group_text: &str,
    help_text: &str,
    node: CommandTreeNode,
)
    requires
        depth < key_codes.len(),
        can_register(old(at)@, codes_of(key_codes@).skip(depth as int)),
    ensures
        registered_one(
            old(at)@,
            codes_of(key_codes@).skip(depth as int),
            node@,
            help_group_text@,
            help_text@,
            final(at)@,
        ),
    decreases key_codes.len() - depth,
{
    let ghost target = codes_of(key_codes@).skip(depth as int);
    let ghost prefix = target.drop_last();
    let ghost before = *at;
    let key = key_codes[depth];
    let code = key.code();
    assert(target[0] == code);
    proof {
        if depth + 1 < key_codes.len() {
            assert(prefix.len() > 0);
            assert(prefix[0] == code);
        } else {
            assert(prefix =~= Seq::<u64>::empty());
        }
        assert(before.descend(prefix).is_some());
    }
    let ghost mut label: Seq<char> = Seq::empty();
    let ghost mut put: CommandTreeNode = node;
    match &mut at.children {
        None => {
            assert(false);
        },
        Some(children) => {
            if depth + 1 == key_codes.len() {
                let ghost help_before = help_view(children.help);
                children.add_child(help_group_text, help_text, key, node);
                proof {
                    label = choose|label: Seq<char>|
                        names_key(label, key) && help_view(children.help) == #[trigger] help_add(
                            help_before,
                            help_group_text@,
                            label,
                            help_text@,
                        );
                    assert(key.spec_code() == target.last());
                    assert(names_code(label, target.last()));
                }
            } else {
                let ghost nodes_before = children.nodes@;
                let child = children.nodes.remove(&code);
                match child {
                    None => {
                        assert(false);
                    },
                    Some(mut child) => {
                        let ghost old_child = child;
                        let ghost rest = codes_of(key_codes@).skip(depth + 1);
                        proof {
                            assert(target.drop_first() =~= rest);
                            assert(prefix.drop_first() =~= rest.drop_last());
                            assert(child.descend(rest.drop_last()) == before.descend(prefix));
                        }
                        insert_below(&mut child, key_codes, depth + 1, help_group_text, help_text, node);
                        proof {
                            label = choose|label: Seq<char>|
                                names_code(label, rest.last()) && child@ == #[trigger] registered(
                                    old_child@,
                                    rest,
                                    node@,
                                    help_group_text@,
                                    label,
                                    help_text@,
                                );
                            assert(rest.last() == target.last());
                            put = child;
                        }
                        children.nodes.insert(code, child);
                        assert(children.nodes@ =~= nodes_before.insert(code, put));
                    },
                }
            }
        },
    }
    proof {
        lemma_registered_below(before, *at, target, node@, help_group_text@, help_text@, put, label);
    }
}

/// The step from a node's children to the node itself, for registering.
proof fn lemma_registered_below(
    before: CommandTreeNode,
    after: CommandTreeNode,
    target: Seq<u64>,
    node: TrieModel,
    group: Seq<char>,
    text: Seq<char>,
    put: CommandTreeNode,
    label: Seq<char>,
)
    requires
        can_register(before@, target),
        names_code(label, target.last()),
        before.children.is_some(),
        after.children.is_some(),
        after.action == before.action,
        after.children.unwrap().nodes@ == before.children.unwrap().nodes@.insert(target[0], put),
        target.len() == 1 ==> {
            &&& put@ == node
            &&& help_view(after.children.unwrap().help) == help_add(
                help_view(before.children.unwrap().help),
                group,
                label,
                text,
            )
        },
        target.len() > 1 ==> {
            &&& after.children.unwrap().help == before.children.unwrap().help
            &&& before.children.unwrap().nodes@.contains_key(target[0])
            &&& put@ == registered(
                before.children.unwrap().nodes@[target[0]]@,
                target.drop_first(),
                node,
                group,
                label,
                text,
            )
        },
    ensures
        after@ == registered(before@, target, node, group, label, text),
        registered_one(before@, target, node, group, text, after@),
{
    let b = before.children.unwrap();
    let a = after.children.unwrap();
    let k = target[0];
    let prefix = target.drop_last();
    let want = registered(before@, target, node, group, label, text);
    if target.len() == 1 {
        assert(prefix =~= Seq::<u64>::empty());
        assert forall|p: Seq<u64>|
            #![trigger after@.dom().contains(p)]
            #![trigger want.dom().contains(p)]
            #![trigger after@[p]]
            #![trigger want[p]]
            after@.dom().contains(p) == want.dom().contains(p) && (after@.dom().contains(p)
                ==> after@[p] == want[p]) by {
            if p.len() == 0 {
                assert(p =~= prefix);
            } else if p[0] == k {
                assert(p.subrange(0, 1) =~= target);
                assert(target.is_prefix_of(p));
                assert(p.skip(1) =~= p.drop_first());
            } else {
                if target.is_prefix_of(p) {
                    assert(p.subrange(0, 1)[0] == target[0]);
                }
                assert(!target.is_prefix_of(p));
            }
        }
        assert(after@ =~= want);
    } else {
        let old_child = b.nodes@[k];
        let rest = target.drop_first();
        assert(prefix.len() > 0 && prefix[0] == k);
        assert(prefix.drop_first() =~= rest.drop_last());
        assert(target =~= seq![k] + rest);
        assert(prefix =~= seq![k] + rest.drop_last());
        assert forall|p: Seq<u64>|
            #![trigger after@.dom().contains(p)]
            #![trigger want.dom().contains(p)]
            #![trigger after@[p]]
            #![trigger want[p]]
            after@.dom().contains(p) == want.dom().contains(p) && (after@.dom().contains(p)
                ==> after@[p] == want[p]) by {
            if p.len() == 0 {
                assert(p != prefix);
                assert(!target.is_prefix_of(p));
            } else if p[0] == k {
                let q = p.drop_first();
                assert(p =~= seq![k] + q);
                assert(after.descend(p) == put.descend(q));
                assert(before.descend(p) == old_child.descend(q));
                assert((p == prefix) == (q == rest.drop_last())) by {
                    if p == prefix {
                        assert(q =~= rest.drop_last());
                    }
                }
                assert(target.is_prefix_of(p) == rest.is_prefix_of(q)) by {
                    if rest.is_prefix_of(q) {
                        assert(p.subrange(0, target.len() as int) =~= seq![k] + q.subrange(
                            0,
                            rest.len() as int,
                        ));
                    }
                    if target.is_prefix_of(p) {
                        assert(q.subrange(0, rest.len() as int) =~= p.subrange(
                            0,
                            target.len() as int,
                        ).drop_first());
                    }
                }
                if target.is_prefix_of(p) {
                    assert(p.skip(target.len() as int) =~= q.skip(rest.len() as int));
                }
                let at_q = registered_at(old_child@, rest, node, group, label, text, q);
                let at_p = registered_at(before@, target, node, group, label, text, p);
                assert(after@.contains_key(p) == put@.contains_key(q));
                assert(put@.contains_key(q) == at_q.is_some());
                assert(before@.contains_key(p) == old_child@.contains_key(q));
                if before@.contains_key(p) {
                    assert(before@[p] == old_child@[q]);
                }
                if p == prefix {
                    assert(before@.contains_key(prefix));
                    assert(old_child@[rest.drop_last()] == before@[prefix]);
                }
                assert(at_q == at_p);
                if after@.contains_key(p) {
                    assert(after@[p] == put@[q]);
                    assert(put@[q] == at_q.unwrap());
                }
            } else {
                assert(p != prefix);
                if target.is_prefix_of(p) {
                    assert(p.subrange(0, target.len() as int)[0] == target[0]);
                }
                assert(!target.is_prefix_of(p));
            }
        }
        assert(after@ =~= want);
    }
}

/// Registering one table and then another is registering the two in a row.
pub proof fn lemma_registered_rows_concat(
    a: TrieModel,
    first: Seq<Row>,
    b: TrieModel,
    second: Seq<Row>,
    c: TrieModel,
)
    requires
        registered_rows(a, first, b),
        registered_rows(b, second, c),
    ensures
        registered_rows(a, first + second, c),
    decreases second.len(),
{
    if second.len() == 0 {
        assert(first + second =~= first);
    } else {
        let r = second.last();
        let mid = choose|mid: TrieModel|
            #![trigger registered_one(mid, codes_of(r.keys), r.node, r.group, r.text, c)]
            registered_rows(b, second.drop_last(), mid) && registered_one(
                mid,
                codes_of(r.keys),
                r.node,
                r.group,
                r.text,
                c,
            );
        lemma_registered_rows_concat(a, first, b, second.drop_last(), mid);
        let all = first + second;
        assert(all.drop_last() =~= first + second.drop_last());
        assert(all.last() == r);
        assert(registered_rows(a, all.drop_last(), mid) && registered_one(
            mid,
            codes_of(all.last().keys),
            all.last().node,
            all.last().group,
            all.last().text,
            c,
        ));
    }
}

/// Whether some row of a table lies directly below a key sequence.
pub open spec fn has_row_below(rows: Seq<Row>, keys: Seq<Key>) -> bool {
    exists|j: int|
        0 <= j < rows.len() && (#[trigger] rows[j]).keys.len() > 0 && rows[j].keys.drop_last()
            == keys
}

/// Whether a row gives its node something to do: an action, or a menu that
/// some row of the table `all` lies below.
pub open spec fn row_bound(row: Row, all: Seq<Row>) -> bool {
    &&& row.node.contains_key(Seq::empty())
    &&& row.node[Seq::empty()].action.is_some() || (row.node[Seq::empty()].children.is_some()
        && has_row_below(all, row.keys))
}

/// Whether every row of `rows` gives its node something to do within the
/// table `all`.
pub open spec fn rows_bound(rows: Seq<Row>, all: Seq<Row>) -> bool {
    forall|i: int| 0 <= i < rows.len() ==> row_bound(#[trigger] rows[i], all)
}

/// A row below a key sequence stays one where rows are added behind.
pub proof fn lemma_has_row_below_left(a: Seq<Row>, b: Seq<Row>, keys: Seq<Key>)
    requires
        has_row_below(a, keys),
    ensures
        has_row_below(a + b, keys),
{
    let j = choose|j: int|
        0 <= j < a.len() && (#[trigger] a[j]).keys.len() > 0 && a[j].keys.drop_last() == keys;
    assert((a + b)[j] == a[j]);
}

/// A row below a key sequence stays one where rows are added in front.
pub proof fn lemma_has_row_below_right(a: Seq<Row>, b: Seq<Row>, keys: Seq<Key>)
    requires
        has_row_below(b, keys),
    ensures
        has_row_below(a + b, keys),
{
    let j = choose|j: int|
        0 <= j < b.len() && (#[trigger] b[j]).keys.len() > 0 && b[j].keys.drop_last() == keys;
    assert((a + b)[a.len() + j] == b[j]);
}

/// Two lists of rows that have something to do within a table have it as
/// one list.
pub proof fn lemma_rows_bound_concat(a: Seq<Row>, b: Seq<Row>, all: Seq<Row>)
    requires
        rows_bound(a, all),
        rows_bound(b, all),
    ensures
        rows_bound(a + b, all),
{
    assert forall|i: int| 0 <= i < (a + b).len() implies row_bound(#[trigger] (a + b)[i], all) by {
        if i < a.len() {
            assert((a + b)[i] == a[i]);
        } else {
            assert((a + b)[i] == b[i - a.len()]);
        }
    }
}

/// What was registered last is found at its key sequence.
pub proof fn lemma_registered_lookup(
    before: TrieModel,
    target: Seq<u64>,
    node: TrieModel,
    group: Seq<char>,
    text: Seq<char>,
    after: TrieModel,
)
    requires
        registered_one(before, target, node, group, text, after),
        node.contains_key(Seq::empty()),
    ensures
        after.contains_key(target),
        after[target] == node[Seq::empty()],
{
    assert(target.is_prefix_of(target));
    assert(target.skip(target.len() as int) =~= Seq::<u64>::empty());
}

/// Registering leaves alone what does not lie at or below the target; the
/// menu above the target keeps its action and stays a menu.
pub proof fn lemma_registered_keeps(
    before: TrieModel,
    target: Seq<u64>,
    node: TrieModel,
    group: Seq<char>,
    text: Seq<char>,
    after: TrieModel,
    path: Seq<u64>,
)
    requires
        registered_one(before, target, node, group, text, after),
        before.contains_key(path),
        !target.is_prefix_of(path),
    ensures
        after.contains_key(path),
        after[path].action == before[path].action,
        after[path].children.is_some() == before[path].children.is_some(),
        path != target.drop_last() ==> after[path] == before[path],
{
}

/// After a table was registered, the key sequence of a row reaches a node
/// with the action of that row, unless a later row was registered at the
/// sequence or above it.
pub proof fn lemma_rows_lookup(before: TrieModel, rows: Seq<Row>, after: TrieModel, i: int)
    requires
        registered_rows(before, rows, after),
        0 <= i < rows.len(),
        rows[i].node.contains_key(Seq::empty()),
        forall|j: int|
            i < j < rows.len() ==> !codes_of((#[trigger] rows[j]).keys).is_prefix_of(
                codes_of(rows[i].keys),
            ),
    ensures
        after.contains_key(codes_of(rows[i].keys)),
        after[codes_of(rows[i].keys)].action == rows[i].node[Seq::empty()].action,
    decreases rows.len(),
{
    let r = rows.last();
    let mid = choose|mid: TrieModel|
        #![trigger registered_one(mid, codes_of(r.keys), r.node, r.group, r.text, after)]
        registered_rows(before, rows.drop_last(), mid) && registered_one(
            mid,
            codes_of(r.keys),
            r.node,
            r.group,
            r.text,
            after,
        );
    if i == rows.len() - 1 {
        lemma_registered_lookup(mid, codes_of(r.keys), r.node, r.group, r.text, after);
    } else {
        let front = rows.drop_last();
        assert(front[i] == rows[i]);
        assert forall|j: int| i < j < front.len() implies !codes_of(
            (#[trigger] front[j]).keys,
        ).is_prefix_of(codes_of(front[i].keys)) by {
            assert(front[j] == rows[j]);
        }
        lemma_rows_lookup(before, front, mid, i);
        assert(rows[rows.len() - 1] == r);
        lemma_registered_keeps(
            mid,
            codes_of(r.keys),
            r.node,
            r.group,
            r.text,
            after,
            codes_of(rows[i].keys),
        );
    }
}

/// What is bound after a registration was bound before, or lies in the
/// registered trie at or below the target.
pub proof fn lemma_registered_domain(
    before: TrieModel,
    target: Seq<u64>,
    node: TrieModel,
    group: Seq<char>,
    text: Seq<char>,
    after: TrieModel,
    path: Seq<u64>,
)
    requires
        registered_one(before, target, node, group, text, after),
        after.contains_key(path),
    ensures
        before.contains_key(path) || (target.is_prefix_of(path) && node.contains_key(
            path.skip(target.len() as int),
        )),
{
    let label = choose|label: Seq<char>|
        names_code(label, target.last()) && after == #[trigger] registered(
            before,
            target,
            node,
            group,
            label,
            text,
        );
    assert(after.dom().contains(path));
    assert(registered_at(before, target, node, group, label, text, path).is_some());
}

/// After a table of single nodes was registered, a key sequence is bound
/// only if it was bound before or is the sequence of a row. Any other
/// sequence, such as a bound one with a further key that no row has, is
/// unbound.
pub proof fn lemma_rows_domain(before: TrieModel, rows: Seq<Row>, after: TrieModel, path: Seq<u64>)
    requires
        registered_rows(before, rows, after),
        forall|j: int| 0 <= j < rows.len() ==> (#[trigger] rows[j]).node.dom() =~= set![Seq::<u64>::empty()],
        after.contains_key(path),
    ensures
        before.contains_key(path) || exists|j: int|
            0 <= j < rows.len() && codes_of((#[trigger] rows[j]).keys) == path,
    decreases rows.len(),
{
    if rows.len() > 0 {
        let r = rows.last();
        let target = codes_of(r.keys);
        let mid = choose|mid: TrieModel|
            #![trigger registered_one(mid, codes_of(r.keys), r.node, r.group, r.text, after)]
            registered_rows(before, rows.drop_last(), mid) && registered_one(
                mid,
                codes_of(r.keys),
                r.node,
                r.group,
                r.text,
                after,
            );
        let front = rows.drop_last();
        assert forall|j: int| 0 <= j < front.len() implies (#[trigger] front[j]).node.dom()
            =~= set![Seq::<u64>::empty()] by {
            assert(front[j] == rows[j]);
        }
        assert(rows[rows.len() - 1] == r);
        lemma_registered_domain(mid, target, r.node, r.group, r.text, after, path);
        if !mid.contains_key(path) {
            let rest = path.skip(target.len() as int);
            assert(r.node.dom().contains(rest));
            assert(set![Seq::<u64>::empty()].contains(rest));
            assert(rest.len() == 0);
            assert(path.len() == target.len());
            assert(path.subrange(0, target.len() as int) =~= path);
            assert(path == target);
            assert(codes_of(rows[rows.len() - 1].keys) == path);
        } else {
            lemma_rows_domain(before, front, mid, path);
            if !before.contains_key(path) {
                let j = choose|j: int|
                    0 <= j < front.len() && codes_of((#[trigger] front[j]).keys) == path;
                assert(front[j] == rows[j]);
            }
        }
    }
}

impl CommandTree {
    /// The node that a key sequence reaches, as a value.
    pub open spec fn spec_get_node(self, keys: Seq<Key>) -> Option<CommandTreeNode> {
        self.0.descend(codes_of(keys))
    }

    /// The help listing of the whole tree: the groups of the root menu,
    /// sorted, and the groups on navigation and on the general keys.
    pub fn get_help(&self) -> (text: Text)
        requires
            self.0.children.is_some(),
        ensures
            text@ == help_text(
                group_insert(
                    group_insert(
                        sorted_help(help_view(self.0.children.unwrap().help)),
                        "Navigation"@,
                        navigation_rows(),
                    ),
                    "General"@,
                    general_rows(),
                ),
            ),
    {
        let mut nav_help: Vec<(String, String)> = Vec::new();
        nav_help.push(help_row("Tab ", "Toggle folding"));
        nav_help.push(help_row("PgDn", "Move down page"));
        nav_help.push(help_row("PgUp", "Move up page"));
        nav_help.push(help_row("j/\u{2193} ", "Move down"));
        nav_help.push(help_row("k/\u{2191} ", "Move up"));
        nav_help.push(help_row("l/\u{2192} ", "Next sibling"));
        nav_help.push(help_row("h/\u{2190} ", "Prev sibling"));
        nav_help.push(help_row("K", "Select parent"));
        nav_help.push(help_row("@", "Select @ change"));
        assert(rows_view(nav_help@) =~= navigation_rows());
        let mut general_help: Vec<(String, String)> = Vec::new();
        general_help.push(help_row("Spc/Ctrl-r", "Refresh log tree"));
        general_help.push(help_row("Esc", "Clear app state"));
        general_help.push(help_row("L", "Set log revset"));
        general_help.push(help_row("I", "Toggle --ignore-immutable"));
        general_help.push(help_row("?", "Show help"));
        general_help.push(help_row("q", "Quit"));
        assert(rows_view(general_help@) =~= general_rows());
        let mut entries = match &self.0.children {
            Some(children) => children.get_help_entries(),
            None => help_new(),
        };
        help_insert(&mut entries, String::from_str("Navigation"), nav_help);
        help_insert(&mut entries, String::from_str("General"), general_help);
        render_help_text(&entries)
    }

    /// Registers the rows of a table, first to last.
    pub fn add_children(&mut self, entries: Vec<Binding>)
        requires
            registrable(old(self)@, binding_rows(entries@)),
        ensures
            registered_rows(old(self)@, binding_rows(entries@), final(self)@),
    {
        let mut entries = entries;
        let ghost all = binding_rows(entries@);
        let ghost start = self@;
        let ghost mut done: int = 0;
        assert(all.take(0) =~= Seq::<Row>::empty());
        assert(all.skip(0) =~= all);
        while entries.len() > 0
            invariant
                0 <= done <= all.len(),
                binding_rows(entries@) == all.skip(done),
                registrable(self@, all.skip(done)),
                registered_rows(start, all.take(done), self@),
            decreases entries.len(),
        {
            let ghost now = self@;
            let ghost rows = entries@;
            let (help_group_text, help_text, key_codes, node) = entries.remove(0);
            proof {
                assert(all.skip(done)[0] == binding_row(rows[0]));
                assert(entries@ =~= rows.drop_first());
                assert(binding_rows(rows) == all.skip(done));
                assert(binding_rows(rows).len() == rows.len());
                assert(all.skip(done).len() == all.len() - done);
                assert(rows[0] == (help_group_text, help_text, key_codes, node));
                assert(all[done] == binding_row(rows[0]));
                assert forall|j: int| 0 <= j < entries@.len() implies binding_rows(entries@)[j]
                    == all.skip(done + 1)[j] by {
                    assert(entries@[j] == rows[j + 1]);
                    assert(binding_rows(rows)[j + 1] == binding_row(rows[j + 1]));
                    assert(all.skip(done)[j + 1] == all[done + j + 1]);
                    assert(all.skip(done + 1)[j] == all[done + 1 + j]);
                }
                assert(binding_rows(entries@) =~= all.skip(done + 1));
                assert(all.skip(done).drop_first() =~= all.skip(done + 1));
                assert(codes_of(key_codes@).len() == key_codes@.len());
                assert(codes_of(key_codes@).skip(0) =~= codes_of(key_codes@));
            }
            insert_below(&mut self.0, &key_codes, 0, help_group_text, help_text, node);
            proof {
                assert(all.take(done + 1).drop_last() =~= all.take(done));
                assert(all.take(done + 1).last() == all[done]);
                assert(registered_rows(start, all.take(done + 1).drop_last(), now));
                let row = all[done];
                assert(row.keys == key_codes@ && row.node == node@ && row.group == help_group_text@
                    && row.text == help_text@);
                assert(registered_one(now, codes_of(row.keys), row.node, row.group, row.text, self@));
                let label = choose|label: Seq<char>|
                    self@ == #[trigger] registered(
                        now,
                        codes_of(row.keys),
                        row.node,
                        row.group,
                        label,
                        row.text,
                    );
                assert(registrable(
                    registered(now, codes_of(row.keys), row.node, row.group, label, row.text),
                    all.skip(done).drop_first(),
                ));
                assert(all.take(done + 1).len() > 0);
                let upto = all.take(done + 1);
                assert(upto.last() == row);
                assert(registered_rows(start, upto.drop_last(), now) && registered_one(
                    now,
                    codes_of(upto.last().keys),
                    upto.last().node,
                    upto.last().group,
                    upto.last().text,
                    self@,
                ));
                assert(registered_rows(start, upto, self@));
                done = done + 1;
            }
        }
        assert(all.take(done) =~= all);
    }

    /// The node at the end of a key sequence, if the sequence is bound.
    pub fn get_node(&self, key_codes: &[Key]) -> (r: Option<&CommandTreeNode>)
        ensures
            r.is_some() == self.spec_get_node(key_codes@).is_some(),
            r.is_some() ==> *r.unwrap() == self.spec_get_node(key_codes@).unwrap(),
            r.is_some() == self@.contains_key(codes_of(key_codes@)),
            r.is_some() ==> r.unwrap().info() == self@[codes_of(key_codes@)],
    {
        let mut node = &self.0;
        let ghost codes = codes_of(key_codes@);
        let mut i: usize = 0;
        assert(codes.skip(0) =~= codes);
        while i < key_codes.len()
            invariant
                i <= key_codes.len(),
                codes == codes_of(key_codes@),
                self.0.descend(codes) == node.descend(codes.skip(i as int)),
            decreases key_codes.len() - i,
        {
            let ghost rest = codes.skip(i as int);
            assert(rest[0] == key_codes@[i as int].spec_code());
            assert(rest.drop_first() =~= codes.skip(i + 1));
            let children = match &node.children {
                None => {
                    return None;
                },
                Some(children) => children,
            };
            match children.get_node(&key_codes[i]) {
                None => {
                    return None;
                },
                Some(next) => {
                    node = next;
                },
            }
            i = i + 1;
        }
        assert(codes.skip(key_codes.len() as int) =~= Seq::<u64>::empty());
        Some(node)
    }
}

} // verus!
