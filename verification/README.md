# gerrit_gitlab_ci

A bridge between Gerrit code review and GitLab CI. It listens to Gerrit's
event stream; for each new patchset it pushes the patchset to a GitLab branch,
triggers a pipeline and follows it, reporting the result on the change as a
review with a vote on the `Verified` label. Review comments can ask for a
retry, and abandoned, deleted or merged changes have their branch removed.

Layout:

- `src/` is the verified library: the configuration and repository lookup,
  the ssh, git and `gerrit review` command lines, the reading of
  `git push --porcelain` output, the GitLab endpoints, access tokens and
  reply handling, and the change tracker's decisions (which job an event
  starts, and each step of the new-pipeline, retry and tracking jobs), with
  the properties that relate them.
- `app/` is the daemon: command line, configuration file, the event stream,
  running commands and HTTP requests, and the serialized forms of the
  library's types.
- `tests/` exercises the library on concrete values.
