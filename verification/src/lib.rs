//! A bridge between Gerrit code review and GitLab CI: it mirrors Gerrit
//! patchsets to GitLab branches, triggers and tracks pipelines, and reports
//! their outcome back to Gerrit as reviews.
pub mod text;
pub mod command_line;
pub mod config;
pub mod ssh;
pub mod gerrit_stream_events;
pub mod helpers;
pub mod gerrit_ssh_command;
pub mod git;
pub mod gitlab;
pub mod change_tracker;
pub mod gitlab_mirroring;
