# Git Auto Pull, verified core

Git Auto Pull keeps local Git working copies in step with their remotes:
it clones a repository on its first sync, fast-forwards it later (only when
the working copy is clean, its origin is the registered address and the
configured branch is checked out), registers existing directories as clones
without touching their files, and signs in to GitHub through Git Credential
Manager.

`src/` is a Verus library. Every procedure that talks to Git or the file
system is a state machine: it asks for one effect at a time (`effects.rs`)
and is resumed with the reply, so each decision is verified against its
contract while the caller performs the effects.

- `sync.rs`, `register.rs`, `inspect.rs`, `accounts.rs`: the Git procedures.
- `queue.rs`: the task queue (one task per repository, first in first out,
  a concurrency limit in 1..=8). The waiting line is a `VecDeque`, as
  queued tasks are appended at the back and started from the front. The
  running repositories are a `Vec` whose entries the queue invariant keeps
  distinct: a `HashSet<String>` would tie every membership answer to how
  `String` hashes and compares, which the contracts could not state, while
  a scan of a handful of ids states exactly what it finds.
- `commands.rs`, `store.rs`: what the user's commands do to the settings and
  the log.
- `git.rs`, `web.rs`, `text.rs`: reading Git output, comparing remotes,
  profile and avatar checks, and the text primitives beneath them.

`app/` performs the effects (processes, files, HTTP), shares the queue
between threads and serialises the settings. It exposes the application's
commands as plain functions; the desktop window, tray menu, updater and
folder dialog that call them are not part of this repository.
