use gerrit_gitlab_ci::command_line::CommandLine;
use gerrit_gitlab_ci::config::{
    Config, FindRepository, GerritConfig, GitlabApiConfig, GitlabConfig, GitlabSshConfig,
    RepositoryConfig, RepositoryError,
};
use gerrit_gitlab_ci::gerrit_stream_events::models::{Change, ChangeStatus, Patchset, PatchsetKind};
use gerrit_gitlab_ci::git::{Git, GitError, PushOperation};
use gerrit_gitlab_ci::ssh;
use gerrit_gitlab_ci::text::{decimal_string, ends_with, same_text, starts_with};

fn repo(name: &str, remote: &str, id: u64, token: Option<&str>) -> RepositoryConfig {
    RepositoryConfig {
        name: name.to_string(),
        gitlab_git_remote: remote.to_string(),
        gitlab_project_id: id,
        private_access_token: token.map(|t| t.to_string()),
    }
}

fn sample_config(git_dir: &str) -> Config {
    Config {
        gerrit: GerritConfig {
            ssh: ssh::Config {
                user: "bot".to_string(),
                host: "gerrit.example.com".to_string(),
                port: Some(29418),
                private_key_path: None,
            },
            internal_git_directory: git_dir.to_string(),
        },
        gitlab: GitlabConfig {
            ci_branch_prefix: "gerrit/".to_string(),
            ssh: GitlabSshConfig::default(),
            api: GitlabApiConfig::default(),
        },
        repositories: vec![
            repo("kiteshield/hal", "git@gitlab.com:k/hal.git", 11, Some("tok-hal")),
            repo("kiteshield/app", "git@gitlab.com:k/app.git", 12, None),
            repo("kiteshield/hal", "git@gitlab.com:k/other.git", 13, None),
        ],
    }
}

fn sample_change(branch: &str) -> Change {
    Change {
        project: "kiteshield/hal".to_string(),
        branch: branch.to_string(),
        id: "Ib5fa8c667c3e8ff42e8b2404b5083c8b6af2af6d".to_string(),
        number: 2082,
        status: ChangeStatus::New,
        wip: false,
        private: false,
    }
}

fn sample_patchset() -> Patchset {
    Patchset {
        reference: "refs/changes/82/2082/2".to_string(),
        kind: PatchsetKind::Other,
        revision: "fa6b3cf76e9cda2f2e87f31aad124148a49ef49a".to_string(),
        number: 2,
    }
}

fn strings(v: &[&str]) -> Vec<String> {
    v.iter().map(|s| s.to_string()).collect()
}

#[test]
fn decimal_rendering() {
    assert_eq!(decimal_string(0), "0");
    assert_eq!(decimal_string(7), "7");
    assert_eq!(decimal_string(10), "10");
    assert_eq!(decimal_string(2082), "2082");
    assert_eq!(decimal_string(u64::MAX), "18446744073709551615");
}

#[test]
fn text_comparisons() {
    assert!(same_text("master", "master"));
    assert!(!same_text("master", "maste"));
    assert!(!same_text("master", "mastez"));
    assert!(ends_with("please retry", "retry"));
    assert!(ends_with("retry", "retry"));
    assert!(!ends_with("retry please", "retry"));
    assert!(!ends_with("try", "retry"));
    assert!(ends_with("anything", ""));
    assert!(starts_with("refs/meta/config", "refs"));
    assert!(!starts_with("master", "refs"));
    assert!(!starts_with("ref", "refs"));
    assert!(ends_with("héllo wörld", "wörld"));
}

#[test]
fn lookups_take_the_first_entry() {
    let config = sample_config("/srv/gerrit");
    let repos = &config.repositories;
    assert_eq!(repos.find_git_remote("kiteshield/hal").unwrap(), "git@gitlab.com:k/hal.git");
    assert_eq!(repos.find_project_id("kiteshield/hal").unwrap(), 11);
    assert_eq!(
        repos.find_private_access_token("kiteshield/hal").unwrap(),
        Some("tok-hal".to_string())
    );
    assert_eq!(repos.find_project_id("kiteshield/app").unwrap(), 12);
    assert_eq!(repos.find_private_access_token("kiteshield/app").unwrap(), None);
}

#[test]
fn lookups_fail_on_unregistered_names() {
    let config = sample_config("/srv/gerrit");
    let repos = &config.repositories;
    match repos.find_git_remote("nope") {
        Err(RepositoryError::NotRegistered { name }) => assert_eq!(name, "nope"),
        other => panic!("unexpected {other:?}"),
    }
    assert!(repos.find_project_id("nope").is_err());
    assert!(repos.find_private_access_token("nope").is_err());
    let empty: Vec<RepositoryConfig> = Vec::new();
    assert!(empty.find_project_id("kiteshield/hal").is_err());
}

#[test]
fn ssh_command_with_key_and_port() {
    let config = ssh::Config {
        user: "bot".to_string(),
        host: "gerrit.example.com".to_string(),
        port: Some(29418),
        private_key_path: Some("/keys/id".to_string()),
    };
    let line: CommandLine = config.command();
    assert_eq!(line.program, "ssh");
    assert_eq!(
        line.args,
        strings(&[
            "-i",
            "/keys/id",
            "-p",
            "29418",
            "-o",
            "ServerAliveInterval=3",
            "-o",
            "ServerAliveCountMax=3",
            "-o",
            "ConnectTimeout=3",
            "bot@gerrit.example.com"
        ])
    );
    assert!(line.envs.is_empty());
}

#[test]
fn ssh_command_plain() {
    let config = ssh::Config {
        user: "u".to_string(),
        host: "h".to_string(),
        port: None,
        private_key_path: None,
    };
    let line = config.command();
    assert_eq!(
        line.args,
        strings(&[
            "-o",
            "ServerAliveInterval=3",
            "-o",
            "ServerAliveCountMax=3",
            "-o",
            "ConnectTimeout=3",
            "u@h"
        ])
    );
}

#[test]
fn branch_names() {
    let git = Git::new(sample_config("/srv/gerrit"));
    assert_eq!(
        git.generate_branch_name(&sample_change("master")),
        "gerrit/2082-Ib5fa8c667c3e8ff42e8b2404b5083c8b6af2af6d"
    );
    let mut other = sample_change("master");
    other.number = 208;
    other.id = "2-Ib5fa8c667c3e8ff42e8b2404b5083c8b6af2af6d".to_string();
    // A different change never lands on the same branch.
    assert_ne!(
        git.generate_branch_name(&other),
        git.generate_branch_name(&sample_change("master"))
    );
}

#[test]
fn git_directories() {
    let change = sample_change("master");
    assert_eq!(
        Git::new(sample_config("/srv/gerrit")).retrieve_git_dir(&change),
        "/srv/gerrit/kiteshield/hal.git"
    );
    assert_eq!(
        Git::new(sample_config("/srv/gerrit/")).retrieve_git_dir(&change),
        "/srv/gerrit/kiteshield/hal.git"
    );
    assert_eq!(
        Git::new(sample_config("")).retrieve_git_dir(&change),
        "kiteshield/hal.git"
    );
    let mut absolute = sample_change("master");
    absolute.project = "/abs/proj".to_string();
    assert_eq!(
        Git::new(sample_config("/srv/gerrit")).retrieve_git_dir(&absolute),
        "/abs/proj.git"
    );
}

#[test]
fn remotes() {
    let git = Git::new(sample_config("/srv/gerrit"));
    assert_eq!(
        git.retrieve_remote(&sample_change("master")).unwrap(),
        "git@gitlab.com:k/hal.git"
    );
    let mut unknown = sample_change("master");
    unknown.project = "unknown".to_string();
    assert!(git.retrieve_remote(&unknown).is_err());
}

#[test]
fn push_command_for_a_patchset() {
    let git = Git::new(sample_config("/srv/gerrit"));
    let line = git.push_command(&sample_patchset(), &sample_change("master")).unwrap();
    assert_eq!(line.program, "git");
    assert_eq!(
        line.args,
        strings(&[
            "push",
            "--porcelain",
            "--force",
            "git@gitlab.com:k/hal.git",
            "refs/changes/82/2082/2:refs/heads/gerrit/2082-Ib5fa8c667c3e8ff42e8b2404b5083c8b6af2af6d"
        ])
    );
    assert_eq!(
        line.envs,
        vec![("GIT_DIR".to_string(), "/srv/gerrit/kiteshield/hal.git".to_string())]
    );
}

#[test]
fn push_command_refuses_internal_refs() {
    let git = Git::new(sample_config("/srv/gerrit"));
    match git.push_command(&sample_patchset(), &sample_change("refs/meta/config")) {
        Err(GitError::InternalRef { branch }) => assert_eq!(branch, "refs/meta/config"),
        other => panic!("unexpected {other:?}"),
    }
}

#[test]
fn push_command_refuses_unknown_projects() {
    let git = Git::new(sample_config("/srv/gerrit"));
    let mut change = sample_change("master");
    change.project = "unknown".to_string();
    match git.push_command(&sample_patchset(), &change) {
        Err(GitError::Repository(RepositoryError::NotRegistered { name })) => {
            assert_eq!(name, "unknown")
        }
        other => panic!("unexpected {other:?}"),
    }
    assert!(matches!(
        git.push_delete_command(&change),
        Err(GitError::Repository(_))
    ));
}

#[test]
fn delete_command_removes_the_pushed_branch() {
    let git = Git::new(sample_config("/srv/gerrit"));
    let change = sample_change("master");
    let push = git.push_command(&sample_patchset(), &change).unwrap();
    let delete = git.push_delete_command(&change).unwrap();
    assert_eq!(
        delete.args,
        strings(&[
            "push",
            "--porcelain",
            "--delete",
            "git@gitlab.com:k/hal.git",
            "gerrit/2082-Ib5fa8c667c3e8ff42e8b2404b5083c8b6af2af6d"
        ])
    );
    assert_eq!(push.envs, delete.envs);
    assert_eq!(push.args[3], delete.args[3]);
    assert!(push.args[4].ends_with(&format!(":refs/heads/{}", delete.args[4])));
}

#[test]
fn push_outcomes() {
    let git = Git::new(sample_config("/srv/gerrit"));
    let change = sample_change("master");
    let expected = "gerrit/2082-Ib5fa8c667c3e8ff42e8b2404b5083c8b6af2af6d";
    let updated = b"To gitlab.com:k/hal.git\n*\trefs/changes/82/2082/2:refs/heads/b\t[new branch]\nDone\n";
    match git.push_outcome(&change, updated).unwrap() {
        PushOperation::Updated { branch } => assert_eq!(branch, expected),
        other => panic!("unexpected {other:?}"),
    }
    let forced = b"To remote\n+\tsrc:dst\tab..cd (forced update)\nDone\n";
    assert!(matches!(
        git.push_outcome(&change, forced).unwrap(),
        PushOperation::Updated { .. }
    ));
    let same = b"To remote\n=\tsrc:dst\t[up to date]\nDone\n";
    match git.push_outcome(&change, same).unwrap() {
        PushOperation::NoChange { branch } => assert_eq!(branch, expected),
        other => panic!("unexpected {other:?}"),
    }
    // The first marked line decides.
    let both = b"To remote\n=\ta:b\t[up to date]\n*\tc:d\t[new branch]\n";
    assert!(matches!(
        git.push_outcome(&change, both).unwrap(),
        PushOperation::NoChange { .. }
    ));
    // A marker at the very start is not after a line break.
    assert!(matches!(
        git.push_outcome(&change, b"*\tsrc:dst\n"),
        Err(GitError::UnrecognizedPushOutput)
    ));
    assert!(matches!(
        git.push_outcome(&change, b""),
        Err(GitError::UnrecognizedPushOutput)
    ));
    assert!(matches!(
        git.push_outcome(&change, b"To remote\n!\tsrc:dst\t[rejected]\n"),
        Err(GitError::UnrecognizedPushOutput)
    ));
}

#[test]
fn delete_outcomes() {
    assert!(Git::push_delete_outcome(b"To remote\n-\t:refs/heads/b\t[deleted]\nDone\n").is_ok());
    assert!(matches!(
        Git::push_delete_outcome(b"To remote\n!\t:refs/heads/b\t[remote rejected]\n"),
        Err(GitError::UnrecognizedDeleteOutput)
    ));
    assert!(Git::push_delete_outcome(b"\n").is_err());
}

#[test]
fn push_operation_branch() {
    assert_eq!(
        PushOperation::Updated { branch: "x".to_string() }.branch(),
        "x"
    );
    assert_eq!(
        PushOperation::NoChange { branch: "y".to_string() }.branch(),
        "y"
    );
}

#[test]
fn error_messages() {
    let missing = RepositoryError::NotRegistered { name: "p/q".to_string() };
    assert_eq!(missing.message(), "Repository p/q is not registered in a configuration");
    assert_eq!(
        GitError::InternalRef { branch: "refs/meta/config".to_string() }.message(),
        "Tried to push an internal ref: refs/meta/config"
    );
    assert_eq!(
        GitError::Repository(missing).message(),
        "Repository p/q is not registered in a configuration"
    );
    assert_eq!(
        GitError::UnrecognizedPushOutput.message(),
        "git-push returned 0 but parsing did not find \n[*+=]?"
    );
    assert_eq!(
        GitError::UnrecognizedDeleteOutput.message(),
        "git-push returned 0 but parsing did not find \n[-]?"
    );
}

#[test]
fn stream_events_command_line() {
    let line = gerrit_gitlab_ci::gerrit_stream_events::stream_events_command(&sample_config("/srv"));
    assert_eq!(line.program, "ssh");
    assert_eq!(
        line.args,
        strings(&[
            "-p",
            "29418",
            "-o",
            "ServerAliveInterval=3",
            "-o",
            "ServerAliveCountMax=3",
            "-o",
            "ConnectTimeout=3",
            "bot@gerrit.example.com",
            "gerrit",
            "stream-events"
        ])
    );
}
