# gbksync

Keeps local git repositories backed up: a background service per
repository stages every changed file, commits (or amends the last commit
while it has not reached the remote yet) and, every third cycle, pushes the
current branch to each remote with the `git` command. The HTTP proxy of the
system is read from `networksetup`.

The library under `src/` is verified with Verus:

- `text` — lines, whitespace-separated tokens, prefixes and search over characters;
- `network` — the parsing of `networksetup` reports and the order of the proxy lookup;
- `git_api` — the calls into `git2` and the types they carry (trusted);
- `git` — staging, committing, amending, comparing with the remote branch, pushing;
- `git_service` — one sync cycle and its decisions;
- `config` — the configuration file's content and the running configuration;
- `ui` — the repository list, the selection and the details shown.

`app/` is the program: it reads and writes the JSON configuration, runs the
`networksetup` and `git push` commands and the service threads, and prints the
repository list.
