# secretspec providers (verified core)

The write-only secret providers for GitHub Actions (`gh`) and Zuplo (`zuplo`),
with their logic verified by Verus.

- `src/url_parts.rs` — the parts of a provider URI, read through the `url` crate.
- `src/text.rs` — character-level text operations with exact specifications.
- `src/command.rs` — what running a command line tool produced, and UTF-8 decoding.
- `src/github_actions.rs`, `src/zuplo.rs` — configuration from URIs, command
  lines, the interpretation of command outcomes, and the read/write steps
  (each step names the command to run next and the event to report back).
- `src/laws.rs` — properties that relate the operations to one another.
- `app/` — serde configurations, and a `Provider` that runs the tools.
