# zoohelp-backend core

The verified core of the ZooHelp rescue-coordination backend, written in
Verus. The library's logic in `src/` carries `requires`/`ensures`
contracts that Verus proves. Where it calls into `validator`, `chrono`,
`argon2` (with its `password-hash` salts and random source) or std (Unicode
case mapping, the system clock), the call sits in a small
`#[verifier::external_body]` wrapper whose contract is trusted, not
proved; each such wrapper's doc comment says what it claims of the outside
function. `app/` is the thin process around the library.

Layout:

- `src/text.rs`, `src/number.rs`: string and integer-parsing helpers with
  their mathematical models (trimming, ASCII case, splitting, decimal parsing).
- `src/process_role.rs`: which parts of the backend a process runs.
- `src/config.rs`: how the configuration follows from the environment's
  values, and the guardrails it must meet outside development.
- `src/bootstrap.rs`: the administrator provisioned from `BOOTSTRAP_ADMIN_*`.
- `src/account.rs`, `src/auth.rs`, `src/validation.rs`, `src/session.rs`,
  `src/profile.rs`, `src/rate_limits.rs`: identity payload rules, sign-in and
  registration decisions, profile updates, response assembly, request limits.
- `src/flows.rs`: the order of steps of a profile update and of a password
  reset confirmation, as functions from state and step outcome to the next
  step.
- `app/`: reads the environment, provisions the administrator in
  PostgreSQL, and holds the JSON shapes of the identity payloads.
- `tests/`: scenario tests of the library.
