//! The declaration of the registered commands to the platform: the tree
//! flattened into commands, subcommands and subcommand groups.

use crate::interactions::commands::arguments::CommandOption;
use crate::interactions::commands::arguments::CommandOptionView;
use crate::interactions::commands::{CommandInfo, CommandTree, Registered, Registry};
use crate::interactions::commands::tree::TreeView;
use crate::model::command::CommandOption as DeclaredOption;
use crate::model::command::CommandOptionView as DeclaredOptionView;
use crate::model::command::{Command, CommandOptionType, CommandType, CommandView};
use crate::model::command::InteractionContextType;
use vstd::prelude::*;

verus! {

/// The description that is declared for a branch, which has none of its own.
pub open spec fn no_description() -> Seq<char> {
    "No description provided"@
}

/// The contexts in which every command is declared: guilds, direct messages
/// with the bot, and private channels.
pub open spec fn everywhere() -> Seq<InteractionContextType> {
    seq![
        InteractionContextType::Guild,
        InteractionContextType::BotDm,
        InteractionContextType::PrivateChannel,
    ]
}

/// The declarations of the entries of a schema, in order.
pub open spec fn declared_options(options: Seq<CommandOptionView>) -> Seq<DeclaredOptionView> {
    Seq::new(options.len(), |i: int| options[i].declared())
}

/// An option that carries options: a subcommand or a subcommand group.
pub open spec fn nesting(
    kind: CommandOptionType,
    name: Seq<char>,
    description: Seq<char>,
    options: Seq<DeclaredOptionView>,
) -> DeclaredOptionView {
    DeclaredOptionView {
        autocomplete: None,
        channel_types: None,
        choices: None,
        description,
        kind,
        max_length: None,
        max_value: None,
        min_length: None,
        min_value: None,
        name,
        options: Some(options),
        required: None,
    }
}

/// The subcommand that a leaf below the top level is declared as.
pub open spec fn subcommand<H>(name: Seq<char>, info: Registered<H>) -> DeclaredOptionView {
    nesting(CommandOptionType::SubCommand, name, info.description, declared_options(info.options))
}

/// The subcommands of the leaves among `children`, in order. Branches among
/// them are one level too deep for the platform and are left out.
pub open spec fn leaves<H>(children: Seq<(Seq<char>, Registry<H>)>) -> Seq<DeclaredOptionView>
    decreases children.len(),
{
    if children.len() == 0 {
        Seq::empty()
    } else {
        let init = leaves(children.drop_last());
        match children.last().1 {
            TreeView::Leaf(info) => init.push(subcommand(children.last().0, info)),
            TreeView::Node(_) => init,
        }
    }
}

/// What a node at the second level is declared as: a leaf as a subcommand, a
/// branch as a subcommand group of its leaves.
pub open spec fn second_level<H>(name: Seq<char>, node: Registry<H>) -> DeclaredOptionView {
    match node {
        TreeView::Leaf(info) => subcommand(name, info),
        TreeView::Node(children) => nesting(
            CommandOptionType::SubCommandGroup,
            name,
            no_description(),
            leaves(children),
        ),
    }
}

/// What a node at the top level is declared as: a leaf as a command with the
/// options of its schema, a branch as a command whose options are its children.
pub open spec fn top_level<H>(name: Seq<char>, node: Registry<H>) -> CommandView {
    match node {
        TreeView::Leaf(info) => CommandView {
            contexts: Some(everywhere()),
            description: info.description,
            kind: CommandType::ChatInput,
            name,
            options: declared_options(info.options),
        },
        TreeView::Node(children) => CommandView {
            contexts: Some(everywhere()),
            description: no_description(),
            kind: CommandType::ChatInput,
            name,
            options: Seq::new(children.len(), |j: int| second_level(children[j].0, children[j].1)),
        },
    }
}

/// The commands that a registry declares: one for each child of the root, in
/// order.
pub open spec fn exported<H>(registry: Registry<H>) -> Seq<CommandView> {
    match registry {
        TreeView::Node(children) => Seq::new(
            children.len(),
            |i: int| top_level(children[i].0, children[i].1),
        ),
        TreeView::Leaf(_) => Seq::empty(),
    }
}

/// The three contexts in which every command is declared.
fn contexts() -> (r: Vec<InteractionContextType>)
    ensures
        r@ == everywhere(),
{
    let mut v: Vec<InteractionContextType> = Vec::new();
    v.push(InteractionContextType::Guild);
    v.push(InteractionContextType::BotDm);
    v.push(InteractionContextType::PrivateChannel);
    assert(v@ =~= everywhere());
    v
}

/// The declarations of the entries of a schema, in order.
fn declare_options(options: &Vec<CommandOption>) -> (r: Vec<DeclaredOption>)
    ensures
        r.deep_view() == declared_options(options.deep_view()),
{
    let mut out: Vec<DeclaredOption> = Vec::new();
    let mut i: usize = 0;
    while i < options.len()
        invariant
            i <= options.len(),
            out@.len() == i,
            forall|k: int| 0 <= k < i ==> (#[trigger] out@[k]).deep_view() == options@[k].deep_view().declared(),
        decreases options.len() - i,
    {
        out.push(DeclaredOption::from(options[i].clone()));
        i += 1;
    }
    assert(out.deep_view() =~= declared_options(options.deep_view()));
    out
}

/// An option that carries options.
fn nest(kind: CommandOptionType, name: &str, description: &str, options: Vec<DeclaredOption>) -> (r:
    DeclaredOption)
    ensures
        r.deep_view() == nesting(kind, name@, description@, options.deep_view()),
{
    let r = DeclaredOption {
        autocomplete: None,
        channel_types: None,
        choices: None,
        description: description.to_owned(),
        kind,
        max_length: None,
        max_value: None,
        min_length: None,
        min_value: None,
        name: name.to_owned(),
        options: Some(options),
        required: None,
    };
    assert(r.deep_view().options->0 =~= options.deep_view());
    r
}

/// The subcommand that a leaf below the top level is declared as.
fn declare_subcommand<H>(name: &str, info: &CommandInfo<H>) -> (r: DeclaredOption)
    ensures
        r.deep_view() == subcommand(name@, info.abstraction()),
{
    nest(
        CommandOptionType::SubCommand,
        name,
        info.description.as_str(),
        declare_options(&info.options),
    )
}

/// The subcommands of the leaves among the children of a group.
fn declare_leaves<H>(children: &Vec<(String, CommandTree<H>)>) -> (r: Vec<DeclaredOption>)
    ensures
        r.deep_view() == leaves(CommandTree::children_view(children@)),
{
    let ghost all = CommandTree::children_view(children@);
    let mut out: Vec<DeclaredOption> = Vec::new();
    let mut i: usize = 0;
    while i < children.len()
        invariant
            i <= children.len(),
            all == CommandTree::children_view(children@),
            out.deep_view() == leaves(all.take(i as int)),
        decreases children.len() - i,
    {
        let ghost before = out.deep_view();
        proof {
            assert(all.take(i + 1).drop_last() =~= all.take(i as int));
            assert(all.take(i + 1).last() == all[i as int]);
        }
        if let CommandTree::Leaf(info) = &children[i].1 {
            let sub = declare_subcommand(children[i].0.as_str(), info);
            out.push(sub);
            proof {
                assert(out.deep_view() =~= before.push(sub.deep_view()));
            }
        }
        i += 1;
    }
    proof {
        assert(all.take(children.len() as int) =~= all);
    }
    out
}

/// What a node at the second level is declared as.
fn declare_second_level<H>(name: &str, node: &CommandTree<H>) -> (r: DeclaredOption)
    ensures
        r.deep_view() == second_level(name@, node.abstraction()),
{
    match node {
        CommandTree::Leaf(info) => declare_subcommand(name, info),
        CommandTree::Node(children) => {
            proof {
                CommandTree::lemma_node_view(*children);
            }
            nest(
                CommandOptionType::SubCommandGroup,
                name,
                "No description provided",
                declare_leaves(children),
            )
        },
    }
}

/// What a node at the top level is declared as.
fn declare_top_level<H>(name: &str, node: &CommandTree<H>) -> (r: Command)
    ensures
        r.deep_view() == top_level(name@, node.abstraction()),
{
    match node {
        CommandTree::Leaf(info) => Command {
            contexts: Some(contexts()),
            description: info.description.clone(),
            kind: CommandType::ChatInput,
            name: name.to_owned(),
            options: declare_options(&info.options),
        },
        CommandTree::Node(children) => {
            let ghost all = CommandTree::children_view(children@);
            proof {
                CommandTree::lemma_node_view(*children);
            }
            let mut options: Vec<DeclaredOption> = Vec::new();
            let mut j: usize = 0;
            while j < children.len()
                invariant
                    j <= children.len(),
                    all == CommandTree::children_view(children@),
                    options@.len() == j,
                    forall|k: int|
                        0 <= k < j ==> (#[trigger] options@[k]).deep_view() == second_level(
                            all[k].0,
                            all[k].1,
                        ),
                decreases children.len() - j,
            {
                options.push(declare_second_level(children[j].0.as_str(), &children[j].1));
                j += 1;
            }
            let r = Command {
                contexts: Some(contexts()),
                description: "No description provided".to_owned(),
                kind: CommandType::ChatInput,
                name: name.to_owned(),
                options,
            };
            assert(r.deep_view().options =~= top_level(name@, node.abstraction()).options);
            r
        },
    }
}

/// The commands that the tree declares.
pub fn export_tree<H>(tree: &CommandTree<H>) -> (r: Vec<Command>)
    ensures
        r.deep_view() == exported(tree.abstraction()),
{
    let mut commands: Vec<Command> = Vec::new();
    if let CommandTree::Node(children) = tree {
        let ghost all = CommandTree::children_view(children@);
        proof {
            CommandTree::lemma_node_view(*children);
        }
        let mut i: usize = 0;
        while i < children.len()
            invariant
                i <= children.len(),
                all == CommandTree::children_view(children@),
                commands@.len() == i,
                forall|k: int|
                    0 <= k < i ==> (#[trigger] commands@[k]).deep_view() == top_level(
                        all[k].0,
                        all[k].1,
                    ),
            decreases children.len() - i,
        {
            commands.push(declare_top_level(children[i].0.as_str(), &children[i].1));
            i += 1;
        }
        assert(commands.deep_view() =~= exported(tree.abstraction()));
    } else {
        assert(commands.deep_view() =~= exported(tree.abstraction()));
    }
    commands
}

} // verus!
