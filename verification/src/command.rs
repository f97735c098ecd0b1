//! The commands that a host is sent, and the order they are sent in.
//!
//! The order is fixed: the package installation first, then one command per
//! user, one per service to enable, one per service to restart, and one per
//! repository, each group in the order of its list. An empty list gives no
//! command.

use crate::config::{Config, ConfigView};
use vstd::prelude::*;

verus! {

/// The group a command belongs to.
#[derive(Clone, Copy, Debug, PartialEq, Eq, Structural)]
pub enum CommandKind {
    InstallPackages,
    AddUser,
    EnableService,
    RestartService,
    CloneRepository,
}

/// One command line, ready to be run on a host.
#[derive(Debug, PartialEq, Eq)]
pub struct Command {
    pub kind: CommandKind,
    pub text: String,
}

/// The mathematical value of a [`Command`].
pub struct CommandView {
    pub kind: CommandKind,
    pub text: Seq<char>,
}

impl View for Command {
    type V = CommandView;

    open spec fn view(&self) -> CommandView {
        CommandView { kind: self.kind, text: self.text@ }
    }
}

impl DeepView for Command {
    type V = CommandView;

    open spec fn deep_view(&self) -> CommandView {
        self@
    }
}

impl Clone for Command {
    fn clone(&self) -> (r: Self)
        ensures
            r@ == self@,
    {
        Command { kind: self.kind, text: self.text.clone() }
    }
}

impl CommandKind {
    /// The place of a group in the pipeline: groups run in rising rank.
    pub open spec fn rank(self) -> nat {
        match self {
            CommandKind::InstallPackages => 0,
            CommandKind::AddUser => 1,
            CommandKind::EnableService => 2,
            CommandKind::RestartService => 3,
            CommandKind::CloneRepository => 4,
        }
    }

    /// What every command of the group starts with.
    pub open spec fn prefix(self) -> Seq<char> {
        match self {
            CommandKind::InstallPackages => "sudo apt-get update && sudo apt-get install -y "@,
            CommandKind::AddUser => "sudo adduser --disabled-password --gecos '' "@,
            CommandKind::EnableService => "sudo systemctl enable "@,
            CommandKind::RestartService => "sudo systemctl restart "@,
            CommandKind::CloneRepository => "git clone "@,
        }
    }

    /// What every command of the group starts with.
    pub fn leading_text(self) -> (text: &'static str)
        ensures
            text@ == self.prefix(),
    {
        match self {
            CommandKind::InstallPackages => "sudo apt-get update && sudo apt-get install -y ",
            CommandKind::AddUser => "sudo adduser --disabled-password --gecos '' ",
            CommandKind::EnableService => "sudo systemctl enable ",
            CommandKind::RestartService => "sudo systemctl restart ",
            CommandKind::CloneRepository => "git clone ",
        }
    }
}

/// The words, each set apart from the next by one blank.
pub open spec fn joined(words: Seq<Seq<char>>) -> Seq<char>
    decreases words.len(),
{
    if words.len() == 0 {
        Seq::empty()
    } else if words.len() == 1 {
        words[0]
    } else {
        joined(words.drop_last()) + " "@ + words.last()
    }
}

/// The command of group `kind` for one item of its list.
pub open spec fn command_for(kind: CommandKind, item: Seq<char>) -> CommandView {
    CommandView { kind, text: kind.prefix() + item }
}

/// One command of group `kind` per item, in the order of the items.
pub open spec fn one_per_item(kind: CommandKind, items: Seq<Seq<char>>) -> Seq<CommandView> {
    Seq::new(items.len(), |i: int| command_for(kind, items[i]))
}

/// The installation of all packages in a single command, or no command
/// where there is no package.
pub open spec fn install_commands(packages: Seq<Seq<char>>) -> Seq<CommandView> {
    if packages.len() == 0 {
        Seq::empty()
    } else {
        seq![command_for(CommandKind::InstallPackages, joined(packages))]
    }
}

/// The commands for the services: those to enable first, then those to
/// restart.
pub open spec fn service_pipeline(enable: Seq<Seq<char>>, restart: Seq<Seq<char>>) -> Seq<
    CommandView,
> {
    one_per_item(CommandKind::EnableService, enable) + one_per_item(
        CommandKind::RestartService,
        restart,
    )
}

/// Everything a host is sent, in the order it is sent.
pub open spec fn pipeline(config: ConfigView) -> Seq<CommandView> {
    install_commands(config.packages) + one_per_item(CommandKind::AddUser, config.users)
        + service_pipeline(config.enable, config.restart) + one_per_item(
        CommandKind::CloneRepository,
        config.repositories,
    )
}

/// Joins the words with single blanks.
pub fn join_words(words: &Vec<String>) -> (line: String)
    ensures
        line@ == joined(words.deep_view()),
{
    let mut line = String::new();
    let mut i: usize = 0;
    while i < words.len()
        invariant
            i <= words.len(),
            line@ == joined(words.deep_view().take(i as int)),
        decreases words.len() - i,
    {
        let ghost before = words.deep_view().take(i as int);
        let ghost after = words.deep_view().take(i + 1);
        proof {
            assert(after.drop_last() =~= before);
            assert(after.last() == words[i as int]@);
        }
        if i > 0 {
            line.append(" ");
        } else {
            proof {
                assert(line@ + words[i as int]@ =~= words[i as int]@);
            }
        }
        line.append(words[i].as_str());
        i += 1;
    }
    proof {
        assert(words.deep_view().take(i as int) =~= words.deep_view());
    }
    line
}

/// One command of group `kind` per item, in the order of the items.
fn commands_for(kind: CommandKind, items: &Vec<String>) -> (cmds: Vec<Command>)
    ensures
        cmds.deep_view() == one_per_item(kind, items.deep_view()),
{
    let mut cmds: Vec<Command> = Vec::new();
    let mut i: usize = 0;
    while i < items.len()
        invariant
            i <= items.len(),
            cmds.deep_view() =~= one_per_item(kind, items.deep_view().take(i as int)),
        decreases items.len() - i,
    {
        let ghost before = cmds.deep_view();
        let text = String::from_str(kind.leading_text()).concat(items[i].as_str());
        cmds.push(Command { kind, text });
        proof {
            let item = items[i as int]@;
            assert(items.deep_view().take(i + 1)[i as int] == item);
            assert(cmds.deep_view() =~= before.push(command_for(kind, item)));
            assert(before.push(command_for(kind, item)) =~= one_per_item(
                kind,
                items.deep_view().take(i + 1),
            ));
        }
        i += 1;
    }
    proof {
        assert(items.deep_view().take(i as int) =~= items.deep_view());
    }
    cmds
}

/// Moves the commands of `more` to the end of `cmds`.
fn append_commands(cmds: &mut Vec<Command>, more: Vec<Command>)
    ensures
        final(cmds).deep_view() == old(cmds).deep_view() + more.deep_view(),
{
    let mut more = more;
    let ghost first = cmds.deep_view();
    let ghost second = more.deep_view();
    cmds.append(&mut more);
    proof {
        assert(cmds.deep_view() =~= first + second);
    }
}

/// The single command that installs all `packages`; nothing where the list
/// is empty.
pub fn package_commands(packages: &Vec<String>) -> (cmds: Vec<Command>)
    ensures
        cmds.deep_view() == install_commands(packages.deep_view()),
{
    let mut cmds: Vec<Command> = Vec::new();
    if packages.len() > 0 {
        let kind = CommandKind::InstallPackages;
        let list = join_words(packages);
        let text = String::from_str(kind.leading_text()).concat(list.as_str());
        cmds.push(Command { kind, text });
    }
    proof {
        assert(cmds.deep_view() =~= install_commands(packages.deep_view()));
    }
    cmds
}

/// One command per user that adds the account, in the order of `users`.
pub fn user_commands(users: &Vec<String>) -> (cmds: Vec<Command>)
    ensures
        cmds.deep_view() == one_per_item(CommandKind::AddUser, users.deep_view()),
{
    commands_for(CommandKind::AddUser, users)
}

/// One command per service to enable, in the order of `enable`, followed by
/// one per service to restart, in the order of `restart`.
pub fn service_commands(enable: &Vec<String>, restart: &Vec<String>) -> (cmds: Vec<Command>)
    ensures
        cmds.deep_view() == service_pipeline(enable.deep_view(), restart.deep_view()),
{
    let mut cmds = commands_for(CommandKind::EnableService, enable);
    append_commands(&mut cmds, commands_for(CommandKind::RestartService, restart));
    cmds
}

/// One command per repository that clones it, in the order of `repos`.
pub fn repository_commands(repos: &Vec<String>) -> (cmds: Vec<Command>)
    ensures
        cmds.deep_view() == one_per_item(CommandKind::CloneRepository, repos.deep_view()),
{
    commands_for(CommandKind::CloneRepository, repos)
}

/// Everything a host of `config` is sent, in the order it is sent.
pub fn build_pipeline(config: &Config) -> (cmds: Vec<Command>)
    ensures
        cmds.deep_view() == pipeline(config@),
{
    let mut cmds = package_commands(&config.packages.global);
    append_commands(&mut cmds, user_commands(&config.users.global));
    append_commands(
        &mut cmds,
        service_commands(&config.services.enable, &config.services.restart),
    );
    append_commands(&mut cmds, repository_commands(&config.repositories.global));
    cmds
}

/// The pipeline holds one installation command where there are packages,
/// then the users, the services to enable, the services to restart and the
/// repositories, each list in its own order and nothing else in between.
pub proof fn lemma_pipeline_layout(config: ConfigView)
    ensures
        ({
            let p = pipeline(config);
            let first: int = if config.packages.len() == 0 { 0 } else { 1 };
            let users = first;
            let enable = users + config.users.len();
            let restart = enable + config.enable.len();
            let repos = restart + config.restart.len();
            &&& p.len() == repos + config.repositories.len()
            &&& first == 1 ==> p[0] == command_for(
                CommandKind::InstallPackages,
                joined(config.packages),
            )
            &&& forall|k: int|
                0 <= k < config.users.len() ==> #[trigger] p[users + k] == command_for(
                    CommandKind::AddUser,
                    config.users[k],
                )
            &&& forall|k: int|
                0 <= k < config.enable.len() ==> #[trigger] p[enable + k] == command_for(
                    CommandKind::EnableService,
                    config.enable[k],
                )
            &&& forall|k: int|
                0 <= k < config.restart.len() ==> #[trigger] p[restart + k] == command_for(
                    CommandKind::RestartService,
                    config.restart[k],
                )
            &&& forall|k: int|
                0 <= k < config.repositories.len() ==> #[trigger] p[repos + k] == command_for(
                    CommandKind::CloneRepository,
                    config.repositories[k],
                )
        }),
{
}

/// Groups never interleave: of two commands of a pipeline, the earlier one
/// belongs to the same group as the later one or to a group before it.
pub proof fn lemma_pipeline_groups_in_order(config: ConfigView, i: int, j: int)
    requires
        0 <= i <= j < pipeline(config).len(),
    ensures
        pipeline(config)[i].kind.rank() <= pipeline(config)[j].kind.rank(),
{
    lemma_pipeline_layout(config);
}

} // verus!
