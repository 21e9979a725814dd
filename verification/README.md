# r-git-fu

Command line helpers for git: a short status line for shell prompts, a table
of the local branches of a repository by age, and a table of the repositories
of a directory.

## Layout

- `src/` is the library, written in Verus. Its own functions carry contracts
  that Verus proves. The calls into `owo-colors`, `chrono`, `humantime`,
  `comfy-table`, `git2` and `String::push` go through small wrappers marked
  `#[verifier::external_body]`: their contracts state what those crates do,
  as read from their sources, and are trusted, not proved; the one that reads
  the clock (`utc_now_timestamp`) promises nothing of its value. The modules:
  - `primitives`: the status of a repository and the coloured prompt markers;
  - `tables`: the rows of the branch and directory tables;
  - `scan`: the statuses of a directory by name, and when fetching stops;
  - `git`: branch state, change counts, remote refs, branches by age;
  - `display`: commit dates and ages, and the table set-up;
  - `color`, `oid`, `text`: colouring, commit ids, decimal text and string order;
  - `cli`: what each command shows.
- `app/main.rs` is the program: it parses the command line, reads the
  repositories through `git2` and the file system, runs `git fetch`, and
  prints what the library returns.
- `tests/` exercises the library on concrete values.

## The directory statuses

The statuses of a directory's repositories are kept in `scan::StatusMap`, a
vector of (name, status) entries whose names are distinct, rather than in a
`HashMap<String, RepoStatus>`. vstd states its `HashMap` contracts only for
key types that obey its key model, which it grants to integers and `bool`
but not to `String`, and granting it would take an unproved assumption; the
map's contracts would then say nothing of a scan. The table sorts the
repositories by name in any case, so the order of the entries does not show.
