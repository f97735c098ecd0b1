use fleet_manager::command::{
    build_pipeline, join_words, package_commands, repository_commands, service_commands,
    user_commands, Command, CommandKind,
};
use fleet_manager::config::{Config, Host, Packages, Repositories, Services, Users};

fn words(items: &[&str]) -> Vec<String> {
    items.iter().map(|s| s.to_string()).collect()
}

fn config(
    packages: &[&str],
    users: &[&str],
    enable: &[&str],
    restart: &[&str],
    repositories: &[&str],
) -> Config {
    Config {
        hosts: vec![Host {
            name: "web1".to_string(),
            address: "10.0.0.1".to_string(),
            port: 22,
            user: "root".to_string(),
            password: "secret".to_string(),
            key_path: None,
        }],
        packages: Packages { global: words(packages) },
        users: Users { global: words(users) },
        services: Services { enable: words(enable), restart: words(restart) },
        repositories: Repositories { global: words(repositories) },
    }
}

fn texts(commands: &[Command]) -> Vec<String> {
    commands.iter().map(|c| c.text.clone()).collect()
}

#[test]
fn join_words_of_nothing_is_empty() {
    assert_eq!(join_words(&words(&[])), "");
}

#[test]
fn join_words_of_one_word_is_the_word() {
    assert_eq!(join_words(&words(&["curl"])), "curl");
}

#[test]
fn join_words_puts_one_blank_between_words() {
    assert_eq!(join_words(&words(&["curl", "git", "vim"])), "curl git vim");
}

#[test]
fn join_words_keeps_empty_words() {
    assert_eq!(join_words(&words(&["a", "", "b"])), "a  b");
}

#[test]
fn packages_are_installed_by_one_command() {
    let commands = package_commands(&words(&["curl", "git"]));
    assert_eq!(
        commands,
        vec![Command {
            kind: CommandKind::InstallPackages,
            text: "sudo apt-get update && sudo apt-get install -y curl git".to_string(),
        }]
    );
}

#[test]
fn no_packages_give_no_command() {
    assert_eq!(package_commands(&words(&[])), vec![]);
}

#[test]
fn each_user_gets_one_command_in_list_order() {
    let commands = user_commands(&words(&["alice", "bob"]));
    assert_eq!(
        commands,
        vec![
            Command {
                kind: CommandKind::AddUser,
                text: "sudo adduser --disabled-password --gecos '' alice".to_string(),
            },
            Command {
                kind: CommandKind::AddUser,
                text: "sudo adduser --disabled-password --gecos '' bob".to_string(),
            },
        ]
    );
}

#[test]
fn services_are_enabled_before_any_is_restarted() {
    let commands = service_commands(&words(&["nginx", "ssh"]), &words(&["cron", "nginx"]));
    assert_eq!(
        commands,
        vec![
            Command {
                kind: CommandKind::EnableService,
                text: "sudo systemctl enable nginx".to_string(),
            },
            Command {
                kind: CommandKind::EnableService,
                text: "sudo systemctl enable ssh".to_string(),
            },
            Command {
                kind: CommandKind::RestartService,
                text: "sudo systemctl restart cron".to_string(),
            },
            Command {
                kind: CommandKind::RestartService,
                text: "sudo systemctl restart nginx".to_string(),
            },
        ]
    );
}

#[test]
fn each_repository_gets_one_clone_command() {
    let commands = repository_commands(&words(&["https://example.org/a.git"]));
    assert_eq!(
        commands,
        vec![Command {
            kind: CommandKind::CloneRepository,
            text: "git clone https://example.org/a.git".to_string(),
        }]
    );
}

#[test]
fn empty_lists_give_no_commands() {
    assert!(user_commands(&words(&[])).is_empty());
    assert!(service_commands(&words(&[]), &words(&[])).is_empty());
    assert!(repository_commands(&words(&[])).is_empty());
    assert!(build_pipeline(&config(&[], &[], &[], &[], &[])).is_empty());
}

#[test]
fn pipeline_runs_groups_in_the_fixed_order() {
    let pipeline = build_pipeline(&config(
        &["curl", "git"],
        &["alice", "bob"],
        &["nginx"],
        &["ssh", "cron"],
        &["https://example.org/a.git", "https://example.org/b.git"],
    ));
    assert_eq!(
        texts(&pipeline),
        vec![
            "sudo apt-get update && sudo apt-get install -y curl git",
            "sudo adduser --disabled-password --gecos '' alice",
            "sudo adduser --disabled-password --gecos '' bob",
            "sudo systemctl enable nginx",
            "sudo systemctl restart ssh",
            "sudo systemctl restart cron",
            "git clone https://example.org/a.git",
            "git clone https://example.org/b.git",
        ]
    );
    let kinds: Vec<CommandKind> = pipeline.iter().map(|c| c.kind).collect();
    assert_eq!(
        kinds,
        vec![
            CommandKind::InstallPackages,
            CommandKind::AddUser,
            CommandKind::AddUser,
            CommandKind::EnableService,
            CommandKind::RestartService,
            CommandKind::RestartService,
            CommandKind::CloneRepository,
            CommandKind::CloneRepository,
        ]
    );
}

#[test]
fn pipeline_skips_groups_that_are_empty() {
    let pipeline = build_pipeline(&config(&[], &["alice"], &[], &["cron"], &[]));
    assert_eq!(
        texts(&pipeline),
        vec![
            "sudo adduser --disabled-password --gecos '' alice",
            "sudo systemctl restart cron",
        ]
    );
}

#[test]
fn pipeline_of_curl_and_nginx_has_two_commands() {
    let pipeline = build_pipeline(&config(&["curl"], &[], &["nginx"], &[], &[]));
    assert_eq!(
        texts(&pipeline),
        vec![
            "sudo apt-get update && sudo apt-get install -y curl",
            "sudo systemctl enable nginx",
        ]
    );
}

#[test]
fn leading_text_is_the_start_of_every_command_of_the_group() {
    assert_eq!(CommandKind::AddUser.leading_text(), "sudo adduser --disabled-password --gecos '' ");
    assert_eq!(CommandKind::EnableService.leading_text(), "sudo systemctl enable ");
    assert_eq!(CommandKind::RestartService.leading_text(), "sudo systemctl restart ");
    assert_eq!(CommandKind::CloneRepository.leading_text(), "git clone ");
    assert_eq!(
        CommandKind::InstallPackages.leading_text(),
        "sudo apt-get update && sudo apt-get install -y "
    );
}

#[test]
fn cloned_command_equals_the_original() {
    let command = Command { kind: CommandKind::AddUser, text: "x".to_string() };
    assert_eq!(command.clone(), command);
}
