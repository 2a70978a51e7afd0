//! The command registry: a tree of command paths with their handlers and
//! option schemas, and the resolution of an inbound command to its path.

use crate::interactions::commands::arguments::CommandOption;
use crate::interactions::commands::arguments::CommandOptionView;
use crate::interactions::commands::arguments::Error;
use crate::interactions::commands::export::{export_tree, exported};
use crate::interactions::render::{parse_failure, render_outcome, render_parse_failure, rendered};
use crate::interactions::render::SLASH_ERROR_COLOR;
use crate::model::command::Command as DeclaredCommand;
use crate::model::response::InteractionResponse;
use crate::interactions::commands::tree::described_children;
use crate::interactions::commands::tree::lemma_inserted_is_node;
use crate::interactions::commands::tree::lemma_inserted_wf;
use crate::interactions::commands::tree::lemma_position_found;
use crate::interactions::commands::tree::lemma_admitted_is_free;
use crate::interactions::commands::tree::{lemma_inserted_into_empty, lemma_lookup_kept};
use crate::interactions::commands::tree::lemma_lookup_inserted;
use crate::interactions::commands::tree::{lemma_position, position, LeafView, TreeView};
use crate::model::interaction::{CommandData, CommandDataOption, CommandOptionValue};
use crate::text::{join, join_strings, split, split_char, str_eq, views};
use crate::text::{lemma_split_join, lemma_split_pieces};
use vstd::prelude::*;
use vstd::slice::slice_subrange;

pub mod arguments;
pub mod export;
pub mod tree;

verus! {

/// The abstract registry of handlers of type `H`.
pub type Registry<H> = TreeView<H, CommandOptionView>;

/// The abstract value of what is registered for one command.
pub type Registered<H> = LeafView<H, CommandOptionView>;

/// What is registered for one command: its handler, its option schema and its
/// description.
pub struct CommandInfo<H> {
    pub handler: H,
    pub options: Vec<CommandOption>,
    pub description: String,
}

impl<H> CommandInfo<H> {
    /// The abstract value of the registration.
    pub open spec fn abstraction(self) -> Registered<H> {
        LeafView {
            handler: self.handler,
            options: self.options.deep_view(),
            description: self.description@,
        }
    }
}

/// A node of the command tree.
pub enum CommandTree<H> {
    Node(Vec<(String, CommandTree<H>)>),
    Leaf(CommandInfo<H>),
}

impl<H> CommandTree<H> {
    /// The abstract value of the tree.
    pub open spec fn abstraction(self) -> Registry<H>
        decreases self,
    {
        match self {
            CommandTree::Node(children) => TreeView::Node(
                Seq::new(
                    children@.len(),
                    |i: int|
                        if 0 <= i < children@.len() {
                            (children@[i].0@, children@[i].1.abstraction())
                        } else {
                            arbitrary()
                        },
                ),
            ),
            CommandTree::Leaf(info) => TreeView::Leaf(info.abstraction()),
        }
    }

    /// The abstract values of the children of a branch.
    pub open spec fn children_view(children: Seq<(String, CommandTree<H>)>) -> Seq<
        (Seq<char>, Registry<H>),
    > {
        Seq::new(children.len(), |i: int| (children[i].0@, children[i].1.abstraction()))
    }

    /// The abstract value of a branch is the branch of its children's values.
    pub proof fn lemma_node_view(children: Vec<(String, CommandTree<H>)>)
        ensures
            CommandTree::Node(children).abstraction() == TreeView::Node(
                Self::children_view(children@),
            ),
    {
        assert(CommandTree::Node(children).abstraction()->Node_0 =~= Self::children_view(
            children@,
        ));
    }

    /// The tree of the registry that holds no command.
    pub fn new() -> (r: CommandTree<H>)
        ensures
            r.abstraction() == Registry::<H>::empty(),
    {
        let children: Vec<(String, CommandTree<H>)> = Vec::new();
        proof {
            Self::lemma_node_view(children);
            assert(Self::children_view(children@) =~= Seq::empty());
        }
        CommandTree::Node(children)
    }

    /// The position of the first child called `name`, or the number of children.
    fn find_child(children: &Vec<(String, CommandTree<H>)>, name: &str) -> (i: usize)
        ensures
            i == position(Self::children_view(children@), name@),
            i <= children.len(),
    {
        let ghost view = Self::children_view(children@);
        let mut i: usize = 0;
        while i < children.len()
            invariant
                i <= children.len(),
                view == Self::children_view(children@),
                forall|j: int| 0 <= j < i ==> (#[trigger] view[j]).0 != name@,
            decreases children.len() - i,
        {
            if str_eq(children[i].0.as_str(), name) {
                proof {
                    lemma_position(view, name@, i as int);
                }
                return i;
            }
            i += 1;
        }
        proof {
            lemma_position(view, name@, i as int);
        }
        i
    }

    /// The command registered at `path`.
    pub fn get(&self, path: &[String]) -> (r: Option<&CommandInfo<H>>)
        ensures
            match r {
                Some(info) => self.abstraction().lookup(views(path@)) == Some(info.abstraction()),
                None => self.abstraction().lookup(views(path@)) is None,
            },
        decreases path.len(),
    {
        match self {
            CommandTree::Node(children) => {
                proof {
                    Self::lemma_node_view(*children);
                }
                if path.len() == 0 {
                    return None;
                }
                let i = Self::find_child(children, path[0].as_str());
                if i == children.len() {
                    return None;
                }
                let child = &children[i].1;
                if path.len() == 1 {
                    match child {
                        CommandTree::Leaf(info) => Some(info),
                        CommandTree::Node(_) => None,
                    }
                } else {
                    let rest = slice_subrange(path, 1, path.len());
                    proof {
                        assert(views(rest@) =~= views(path@).drop_first());
                    }
                    child.get(rest)
                }
            },
            CommandTree::Leaf(_) => None,
        }
    }

    /// Registers `info` at `path`, creating the branches that are missing on
    /// the way. An empty path changes nothing.
    pub fn insert(&mut self, path: &[String], info: CommandInfo<H>)
        requires
            old(self).abstraction().admits(views(path@)),
        ensures
            final(self).abstraction() == old(self).abstraction().inserted(
                views(path@),
                info.abstraction(),
            ),
        decreases path.len(),
    {
        match self {
            CommandTree::Node(children) => {
                let ghost before = Self::children_view(children@);
                proof {
                    Self::lemma_node_view(*children);
                }
                if path.len() == 0 {
                    return;
                }
                let ghost name = path[0]@;
                let i = Self::find_child(children, path[0].as_str());
                let rest = slice_subrange(path, 1, path.len());
                proof {
                    assert(views(rest@) =~= views(path@).drop_first());
                    assert(views(path@)[0] == name);
                }
                proof {
                    lemma_position_found(before, name);
                }
                if path.len() == 1 {
                    let leaf = CommandTree::Leaf(info);
                    children.push((path[0].clone(), leaf));
                    proof {
                        assert(Self::children_view(children@) =~= before.push(
                            (name, leaf.abstraction()),
                        ));
                    }
                } else {
                    if i == children.len() {
                        children.push((path[0].clone(), CommandTree::new()));
                        proof {
                            lemma_inserted_into_empty::<H, CommandOptionView>(
                                views(rest@),
                                info.abstraction(),
                            );
                        }
                    }
                    let ghost middle = children@;
                    let (key, mut child) = children.remove(i);
                    child.insert(rest, info);
                    children.insert(i, (key, child));
                    proof {
                        let now = Self::children_view(children@);
                        let want = if i as int == before.len() {
                            before.push((name, child.abstraction()))
                        } else {
                            before.update(i as int, (name, child.abstraction()))
                        };
                        assert(key@ == name);
                        assert(now.len() == want.len());
                        assert forall|k: int| 0 <= k < now.len() implies now[k] == want[k] by {
                            if k != i as int {
                                assert(children@[k] == middle[k]);
                            }
                        }
                        assert(now =~= want);
                    }
                }
                proof {
                    Self::lemma_node_view(*children);
                }
            },
            CommandTree::Leaf(_) => {},
        }
    }
}

impl<H> CommandTree<H> {
    /// Whether a command can be registered at `path`.
    pub fn admits(&self, path: &[String]) -> (r: bool)
        ensures
            r == self.abstraction().admits(views(path@)),
        decreases path.len(),
    {
        match self {
            CommandTree::Node(children) => {
                proof {
                    Self::lemma_node_view(*children);
                }
                if path.len() == 0 {
                    return true;
                }
                let i = Self::find_child(children, path[0].as_str());
                if i == children.len() {
                    return true;
                }
                if path.len() == 1 {
                    false
                } else {
                    let rest = slice_subrange(path, 1, path.len());
                    proof {
                        assert(views(rest@) =~= views(path@).drop_first());
                    }
                    children[i].1.admits(rest)
                }
            },
            CommandTree::Leaf(_) => false,
        }
    }
}

impl<H> CommandTree<H> {
    /// Describes the shape of the tree, for a reader.
    pub fn describe(&self) -> (r: String)
        ensures
            r@ == self.abstraction().described(),
        decreases self,
    {
        match self {
            CommandTree::Leaf(_) => "Leaf".to_owned(),
            CommandTree::Node(children) => {
                let ghost all = Self::children_view(children@);
                proof {
                    Self::lemma_node_view(*children);
                }
                let mut out = "Node { ".to_owned();
                let ghost head = out@;
                let mut i: usize = 0;
                while i < children.len()
                    invariant
                        i <= children.len(),
                        all == Self::children_view(children@),
                        out@ == head + described_children(all.take(i as int)),
                        *self == CommandTree::Node(*children),
                    decreases children.len() - i,
                {
                    proof {
                        assert(all.take(i + 1).drop_last() == all.take(i as int));
                        assert(all.take(i + 1).last() == all[i as int]);
                        vstd::std_specs::vec::axiom_vec_index_decreases(*children, i as int);
                        assert(decreases_to!(*self => self->Node_0));
                        assert(decreases_to!(children@[i as int] => children@[i as int].1));
                    }
                    let ghost before = out@;
                    out.append(children[i].0.as_str());
                    out.append(": ");
                    let inner = children[i].1.describe();
                    out.append(inner.as_str());
                    out.append(", ");
                    assert(out@ =~= before + all[i as int].0 + ": "@ + all[i as int].1.described() + ", "@);
                    i += 1;
                }
                proof {
                    assert(all.take(children.len() as int) == all);
                }
                out.append("}");
                out
            },
        }
    }
}

/// A sequence of names is a command path: one to three segments (command,
/// group, subcommand), none of them empty.
pub open spec fn valid_path(path: Seq<Seq<char>>) -> bool {
    &&& 1 <= path.len() <= 3
    &&& forall|i: int| 0 <= i < path.len() ==> (#[trigger] path[i]).len() > 0
}

/// The path of a command in the registry.
#[derive(Debug, PartialEq, Eq)]
pub struct CommandPath {
    segments: Vec<String>,
}

impl View for CommandPath {
    type V = Seq<Seq<char>>;

    closed spec fn view(&self) -> Seq<Seq<char>> {
        views(self.segments@)
    }
}

impl Clone for CommandPath {
    fn clone(&self) -> (r: CommandPath)
        ensures
            r@ == self@,
    {
        proof {
            use_type_invariant(self);
        }
        let mut segments: Vec<String> = Vec::new();
        let mut i: usize = 0;
        while i < self.segments.len()
            invariant
                i <= self.segments.len(),
                views(segments@) == views(self.segments@).take(i as int),
            decreases self.segments.len() - i,
        {
            let ghost before = views(segments@);
            segments.push(self.segments[i].clone());
            assert(views(segments@) =~= before.push(self.segments@[i as int]@));
            assert(views(self.segments@).take(i + 1) =~= before.push(self.segments@[i as int]@));
            i += 1;
        }
        assert(views(self.segments@).take(self.segments.len() as int) =~= views(self.segments@));
        CommandPath { segments }
    }
}

impl CommandPath {
    #[verifier::type_invariant]
    spec fn well_formed(self) -> bool {
        valid_path(views(self.segments@))
    }

    /// The path made of the given segments, where they are one to three and
    /// none is empty.
    pub fn from_segments(segments: Vec<String>) -> (r: Option<CommandPath>)
        ensures
            match r {
                Some(path) => path@ == views(segments@) && valid_path(path@),
                None => !valid_path(views(segments@)),
            },
    {
        if segments.len() < 1 || segments.len() > 3 {
            return None;
        }
        let mut i: usize = 0;
        while i < segments.len()
            invariant
                i <= segments.len(),
                forall|k: int| 0 <= k < i ==> (#[trigger] views(segments@)[k]).len() > 0,
            decreases segments.len() - i,
        {
            if segments[i].as_str().is_empty() {
                assert(views(segments@)[i as int].len() == 0);
                return None;
            }
            i += 1;
        }
        Some(CommandPath { segments })
    }

    /// The path that a command name stands for: its pieces between spaces. No
    /// segment of such a path holds a space.
    pub fn parse(name: &str) -> (r: Option<CommandPath>)
        ensures
            match r {
                Some(path) => {
                    &&& path@ == split(name@, ' ')
                    &&& valid_path(path@)
                    &&& forall|i: int| 0 <= i < path@.len() ==> !(#[trigger] path@[i]).contains(' ')
                },
                None => !valid_path(split(name@, ' ')),
            },
    {
        proof {
            lemma_split_pieces(name@, ' ');
        }
        CommandPath::from_segments(split_char(name, ' '))
    }

    /// The segments of the path, in order.
    pub fn segments(&self) -> (r: &[String])
        ensures
            views(r@) == self@,
            valid_path(self@),
    {
        proof {
            use_type_invariant(self);
        }
        self.segments.as_slice()
    }

    /// The number of segments.
    pub fn len(&self) -> (r: usize)
        ensures
            r == self@.len(),
            1 <= r <= 3,
    {
        proof {
            use_type_invariant(self);
        }
        self.segments.len()
    }

    /// The name that stands for the path: its segments with a space between
    /// neighbours. Where no segment holds a space, the name stands for this
    /// path and no other.
    pub fn joined(&self) -> (r: String)
        ensures
            r@ == join(self@, seq![' ']),
            (forall|i: int| 0 <= i < self@.len() ==> !(#[trigger] self@[i]).contains(' ')) ==> split(
                r@,
                ' ',
            ) == self@,
    {
        proof {
            use_type_invariant(self);
            reveal_strlit(" ");
            assert(" "@ == seq![' ']);
            if forall|i: int| 0 <= i < self@.len() ==> !(#[trigger] self@[i]).contains(' ') {
                lemma_split_join(self@, ' ');
            }
        }
        join_strings(&self.segments, " ")
    }
}

/// Whether the first option marks a level of nesting.
pub fn is_option_sub(options: &[CommandDataOption]) -> (r: bool)
    ensures
        r == (options@.len() > 0 && options@[0].value.is_marker()),
{
    if options.len() == 0 {
        return false;
    }
    match &options[0].value {
        CommandOptionValue::SubCommand(_) => true,
        CommandOptionValue::SubCommandGroup(_) => true,
        _ => false,
    }
}

/// The names that an application-command payload walks through, with the flat
/// option list that is left for the command itself:
/// - the command alone, with the payload's own options, where the first option
///   is no marker;
/// - the command and the subcommand, with the subcommand's options, where the
///   first option is a subcommand marker;
/// - the command, the group and the subcommand, with the subcommand's options,
///   where the first option is a group marker, entered through the first option
///   that the group carries. A group that carries nothing, or whose first option
///   is no subcommand marker, resolves to nothing.
pub open spec fn resolution(data: CommandData) -> Option<(Seq<Seq<char>>, Seq<CommandDataOption>)> {
    if data.options@.len() == 0 || !data.options@[0].value.is_marker() {
        Some((seq![data.name@], data.options@))
    } else {
        let first = data.options@[0];
        match first.value {
            CommandOptionValue::SubCommand(options) => Some((seq![data.name@, first.name@], options@)),
            CommandOptionValue::SubCommandGroup(group) => {
                if group@.len() > 0 && group@[0].value is SubCommand {
                    Some(
                        (
                            seq![data.name@, first.name@, group@[0].name@],
                            group@[0].value->SubCommand_0@,
                        ),
                    )
                } else {
                    None
                }
            },
            _ => None,
        }
    }
}

/// Resolves an application-command payload to the path of the command and the
/// options that are the command's own arguments. There is no result where the
/// payload resolves to nothing, or where one of the names is empty.
pub fn resolve_command_path(interaction: &CommandData) -> (r: Option<
    (CommandPath, &Vec<CommandDataOption>),
>)
    ensures
        match r {
            Some((path, options)) => {
                &&& resolution(*interaction) == Some((path@, options@))
                &&& valid_path(path@)
            },
            None => resolution(*interaction) matches Some((names, _)) ==> !valid_path(names),
        },
{
    let mut path: Vec<String> = Vec::new();
    path.push(interaction.name.clone());
    if !is_option_sub(interaction.options.as_slice()) {
        proof {
            assert(views(path@) =~= seq![interaction.name@]);
        }
        return match CommandPath::from_segments(path) {
            Some(p) => Some((p, &interaction.options)),
            None => None,
        };
    }
    let option = &interaction.options[0];
    match &option.value {
        CommandOptionValue::SubCommand(options) => {
            path.push(option.name.clone());
            proof {
                assert(views(path@) =~= seq![interaction.name@, option.name@]);
            }
            match CommandPath::from_segments(path) {
                Some(p) => Some((p, options)),
                None => None,
            }
        },
        CommandOptionValue::SubCommandGroup(group) => {
            path.push(option.name.clone());
            if group.len() == 0 {
                return None;
            }
            let subcommand = &group[0];
            path.push(subcommand.name.clone());
            proof {
                assert(views(path@) =~= seq![interaction.name@, option.name@, subcommand.name@]);
            }
            if let CommandOptionValue::SubCommand(options) = &subcommand.value {
                match CommandPath::from_segments(path) {
                    Some(p) => Some((p, options)),
                    None => None,
                }
            } else {
                None
            }
        },
        _ => None,
    }
}

/// A payload whose first option is no marker resolves to the command alone,
/// with the payload's own options.
pub proof fn lemma_resolution_command(data: CommandData)
    requires
        data.options@.len() == 0 || !data.options@[0].value.is_marker(),
    ensures
        resolution(data) == Some((seq![data.name@], data.options@)),
{
}

/// A payload whose first option is a subcommand marker resolves to the command
/// and the subcommand, with the options of the subcommand.
pub proof fn lemma_resolution_subcommand(data: CommandData)
    requires
        data.options@.len() > 0,
        data.options@[0].value is SubCommand,
    ensures
        resolution(data) == Some(
            (seq![data.name@, data.options@[0].name@], data.options@[0].value->SubCommand_0@),
        ),
{
}

/// A payload whose first option is a group marker that carries a subcommand
/// marker resolves to the command, the group and the subcommand, with the
/// options of the subcommand.
pub proof fn lemma_resolution_group(data: CommandData)
    requires
        data.options@.len() > 0,
        data.options@[0].value is SubCommandGroup,
        data.options@[0].value->SubCommandGroup_0@.len() > 0,
        data.options@[0].value->SubCommandGroup_0@[0].value is SubCommand,
    ensures
        resolution(data) == Some(
            (
                seq![
                    data.name@,
                    data.options@[0].name@,
                    data.options@[0].value->SubCommandGroup_0@[0].name@,
                ],
                data.options@[0].value->SubCommandGroup_0@[0].value->SubCommand_0@,
            ),
        ),
{
}

/// The options that stand `depth - 1` levels below the payload's own: the
/// payload's options for a path of one segment, those of its first option for
/// two, and those of the first option of its first option for three.
fn into_options(interaction: CommandData, depth: usize) -> (r: Vec<CommandDataOption>)
    requires
        resolution(interaction) matches Some((names, _)) && names.len() == depth,
    ensures
        resolution(interaction) matches Some((_, options)) && r@ == options,
{
    let CommandData { name: _, options, resolved: _, target_id: _ } = interaction;
    let mut options = options;
    if depth == 1 {
        return options;
    }
    let first = options.remove(0);
    match first.value {
        CommandOptionValue::SubCommand(inner) => inner,
        CommandOptionValue::SubCommandGroup(group) => {
            let mut group = group;
            let subcommand = group.remove(0);
            match subcommand.value {
                CommandOptionValue::SubCommand(inner) => inner,
                _ => Vec::new(),
            }
        },
        _ => Vec::new(),
    }
}

/// Resolves an application-command payload as `resolve_command_path` does, and
/// hands the options out of the payload instead of borrowing them.
pub fn into_resolved(interaction: CommandData) -> (r: Option<(CommandPath, Vec<CommandDataOption>)>)
    ensures
        match r {
            Some((path, options)) => {
                &&& resolution(interaction) == Some((path@, options@))
                &&& valid_path(path@)
            },
            None => resolution(interaction) matches Some((names, _)) ==> !valid_path(names),
        },
{
    let path = match resolve_command_path(&interaction) {
        Some((path, _)) => path,
        None => {
            return None;
        },
    };
    let depth = path.len();
    let options = into_options(interaction, depth);
    Some((path, options))
}

/// A command with typed arguments: what it is called, how it is described,
/// which options it declares, and how it is read from the options of an
/// invocation.
pub trait Command: Send + Sync + 'static + Sized {
    /// The name under which the command is registered; spaces part the
    /// segments of its path.
    spec fn spec_name() -> Seq<char>;

    /// The description that is declared to the platform.
    spec fn spec_description() -> Seq<char>;

    /// The option schema, in declared order.
    spec fn spec_options() -> Seq<CommandOptionView>;

    /// Whether `r` is the outcome of binding the command to the options `data`.
    spec fn binds(data: Seq<CommandDataOption>, r: Result<Self, Error>) -> bool;

    fn options() -> (r: Vec<CommandOption>)
        ensures
            r.deep_view() == Self::spec_options(),
    ;

    fn from_command_data(data: Vec<CommandDataOption>) -> (r: Result<Self, Error>)
        ensures
            Self::binds(data@, r),
    ;

    fn description() -> (r: &'static str)
        ensures
            r@ == Self::spec_description(),
    ;

    fn name() -> (r: &'static str)
        ensures
            r@ == Self::spec_name(),
    ;
}

/// What registering the command `C` with the handler `handler` puts in the
/// registry.
pub open spec fn registration<C: Command, H>(handler: H) -> Registered<H> {
    LeafView {
        handler,
        options: C::spec_options(),
        description: C::spec_description(),
    }
}

/// The registry of commands and their handlers. It is filled at startup and
/// only read afterwards.
pub struct CommandExecutor<H> {
    commands: CommandTree<H>,
}

impl<H> View for CommandExecutor<H> {
    type V = Registry<H>;

    closed spec fn view(&self) -> Registry<H> {
        self.commands.abstraction()
    }
}

impl<H> CommandExecutor<H> {
    #[verifier::type_invariant]
    spec fn well_formed(self) -> bool {
        &&& self.commands.abstraction() is Node
        &&& self.commands.abstraction().wf()
    }

    /// The registry that holds no command.
    pub fn new() -> (r: CommandExecutor<H>)
        ensures
            r@ == Registry::<H>::empty(),
    {
        CommandExecutor { commands: CommandTree::new() }
    }

    /// Whether a command can be registered at `path`: no command is registered
    /// at the path, at a path that it begins with, or below it.
    pub fn can_register(&self, path: &CommandPath) -> (r: bool)
        ensures
            r == self@.admits(path@),
            r ==> self@.lookup(path@) is None,
    {
        let r = self.commands.admits(path.segments());
        proof {
            if r {
                assert(path@.take(path@.len() as int) == path@);
                lemma_admitted_is_free(self@, path@, path@);
            }
        }
        r
    }

    /// Registers a command at `path`. Afterwards the command is found at the
    /// path, and every other path leads to what it led to before: no
    /// registration takes anything from another.
    pub fn register_at(
        &mut self,
        path: &CommandPath,
        options: Vec<CommandOption>,
        description: String,
        handler: H,
    )
        requires
            old(self)@.admits(path@),
        ensures
            final(self)@ == old(self)@.inserted(
                path@,
                LeafView { handler, options: options.deep_view(), description: description@ },
            ),
            final(self)@ is Node,
            final(self)@.wf(),
            final(self)@.lookup(path@) == Some(
                LeafView { handler, options: options.deep_view(), description: description@ },
            ),
            forall|other: Seq<Seq<char>>|
                other != path@ ==> (#[trigger] final(self)@.lookup(other)) == old(self)@.lookup(other),
    {
        proof {
            use_type_invariant(&*self);
            let info = LeafView { handler, options: options.deep_view(), description: description@ };
            let before = self@;
            let after = before.inserted(path@, info);
            use_type_invariant(path);
            lemma_inserted_wf(before, path@, info);
            lemma_inserted_is_node(before, path@, info);
            lemma_lookup_inserted(before, path@, info);
            assert forall|other: Seq<Seq<char>>| other != path@ implies (#[trigger] after.lookup(other))
                == before.lookup(other) by {
                lemma_lookup_kept(before, path@, info, other);
            }
        }
        let mut taken = CommandExecutor::new();
        core::mem::swap(self, &mut taken);
        let mut commands = taken.commands;
        commands.insert(path.segments(), CommandInfo { handler, options, description });
        *self = CommandExecutor { commands };
    }

    /// Registers the command `C` with its handler, at the path that its name
    /// stands for.
    pub fn register<C: Command>(&mut self, handler: H)
        requires
            valid_path(split(C::spec_name(), ' ')),
            old(self)@.admits(split(C::spec_name(), ' ')),
        ensures
            final(self)@ == old(self)@.inserted(
                split(C::spec_name(), ' '),
                registration::<C, H>(handler),
            ),
            final(self)@ is Node,
            final(self)@.wf(),
            final(self)@.lookup(split(C::spec_name(), ' ')) == Some(registration::<C, H>(handler)),
            forall|other: Seq<Seq<char>>|
                other != split(C::spec_name(), ' ') ==> (#[trigger] final(self)@.lookup(other)) == old(
                    self,
                )@.lookup(other),
    {
        let path = CommandPath::parse(C::name());
        match path {
            Some(path) => {
                let description = C::description().to_owned();
                self.register_at(&path, C::options(), description, handler);
            },
            None => {},
        }
    }

    /// The command registered at `path`, if there is one.
    pub fn resolve(&self, path: &CommandPath) -> (r: Option<&CommandInfo<H>>)
        ensures
            match r {
                Some(info) => self@.lookup(path@) == Some(info.abstraction()),
                None => self@.lookup(path@) is None,
            },
    {
        self.commands.get(path.segments())
    }
}

impl<H> CommandExecutor<H> {
    /// The commands to declare to the platform: a leaf at the top level as a
    /// command, a leaf at the second level as a subcommand, and a branch at the
    /// second level as a subcommand group of its leaves, each list in the order
    /// of registration.
    pub fn build_commands(&self) -> (r: Vec<DeclaredCommand>)
        ensures
            r.deep_view() == exported(self@),
    {
        export_tree(&self.commands)
    }
}

/// Binding the command `C` to `options` can fail.
pub open spec fn rejects<C: Command>(options: Seq<CommandDataOption>) -> bool {
    exists|e: Error| #[trigger] C::binds(options, Err::<C, Error>(e))
}

/// Binds the command `C` to the options of an invocation. Where the options do
/// not bind, the result is the notice for that, and the handler is not to run.
pub fn bind<C: Command>(options: Vec<CommandDataOption>) -> (r: Result<C, InteractionResponse>)
    ensures
        match r {
            Ok(command) => C::binds(options@, Ok(command)),
            Err(notice) => rejects::<C>(options@) && notice.deep_view() == parse_failure(),
        },
{
    match C::from_command_data(options) {
        Ok(command) => Ok(command),
        Err(e) => {
            assert(C::binds(options@, Err::<C, Error>(e)));
            Err(render_parse_failure())
        },
    }
}

/// Runs a typed handler on the options of an invocation: the options are bound
/// to the command `C` first, and the handler runs on the bound command. Where
/// the options do not bind, the handler does not run and the reply is the
/// notice for that.
pub fn handle<C: Command, F: FnOnce(C) -> Result<InteractionResponse, String>>(
    options: Vec<CommandDataOption>,
    handler: F,
) -> (r: Result<InteractionResponse, String>)
    requires
        forall|command: C| C::binds(options@, Ok(command)) ==> call_requires(handler, (command,)),
    ensures
        ({
            ||| {
                &&& rejects::<C>(options@)
                &&& r matches Ok(response)
                &&& response.deep_view() == parse_failure()
            }
            ||| exists|command: C|
                #[trigger] C::binds(options@, Ok(command)) && call_ensures(handler, (command,), r)
        }),
{
    match bind::<C>(options) {
        Ok(command) => {
            let r = handler(command);
            assert(C::binds(options@, Ok(command)) && call_ensures(handler, (command,), r));
            r
        },
        Err(notice) => Ok(notice),
    }
}

impl<H> CommandExecutor<H> {
    /// Runs the command called `name` on the options of an invocation. `run`
    /// is how a registered handler is called. Where no command is registered
    /// at the path that the name stands for, nothing runs and there is no
    /// reply. Otherwise the reply is what the handler returned, or the notice
    /// for its error.
    pub fn execute<F: FnOnce(&H, Vec<CommandDataOption>) -> Result<InteractionResponse, String>>(
        &self,
        name: &str,
        options: Vec<CommandDataOption>,
        run: F,
    ) -> (r: Option<InteractionResponse>)
        requires
            forall|handler: &H| call_requires(run, (handler, options)),
        ensures
            match self@.lookup(split(name@, ' ')) {
                None => r is None,
                Some(info) => exists|outcome: Result<InteractionResponse, String>|
                    {
                        &&& call_ensures(run, (&info.handler, options), outcome)
                        &&& r matches Some(response)
                        &&& response.deep_view() == rendered(SLASH_ERROR_COLOR, outcome)
                        &&& outcome matches Ok(given) ==> response == given
                    },
            },
    {
        let path = split_char(name, ' ');
        match self.commands.get(path.as_slice()) {
            None => None,
            Some(info) => {
                let outcome = run(&info.handler, options);
                Some(render_outcome(SLASH_ERROR_COLOR, outcome))
            },
        }
    }
}

impl<H> CommandExecutor<H> {
    /// Describes the shape of the registry, for a reader.
    pub fn describe(&self) -> (r: String)
        ensures
            r@ == self@.described(),
    {
        self.commands.describe()
    }
}

impl<H> Default for CommandExecutor<H> {
    fn default() -> (r: CommandExecutor<H>)
        ensures
            r@ == Registry::<H>::empty(),
    {
        CommandExecutor::new()
    }
}

} // verus!