# dtriage

Downloads Triage Agent: watches a Downloads folder, sorts new files into
category folders by extension rules, and records what it would move in a
SQLite registry.

- `src/` is the verified library (Verus): the categorisation rules and the
  stable priority order in which they are tried, path checks (the base
  directory as whole components, no `..` after it), SHA-256 fingerprints in
  hex, computed piece by piece as a file is read, the settings rules, the decisions
  of the triage worker and of a review run (as state machines that the
  program drives), the LLM request and the reading of its reply, and the
  keyring calls (whether those succeed rests on the OS credential store;
  what is proved is which entry each call addresses, what key is handed to
  it, and how each answer is reported). On Linux the keyring crate keeps
  keys in the Secret Service (as libsecret does), with the kernel keyring as
  a cache.
- `app/` is the program around it: command line (clap), settings file
  (serde, TOML), logging, the SQLite database (sqlx), the file watcher, HTTP
  (reqwest) and the async runtime.
- `tests/` runs the library on concrete values.
