# twofactor

Two-factor authentication of a Bitwarden-compatible server: authenticator apps,
YubiKeys, remembered devices and the recovery code. The library is written in
Rust and verified with Verus.

Every endpoint is a state machine. It asks for one action after the other (open
the database, read the user, check the password, write a record, ...) and is
handed the replies; what is asked when, and what is answered, is decided in the
library and proved.

- `src/handlers/`: the endpoints and their answers
- `src/admission.rs`: rate limit, user and master password
- `src/recovery.rs`: the recovery code
- `src/yubico.rs`: YubiKeys and the check of their one-time passwords
- `src/protocol.rs`, `src/statement.rs`: actions, replies, and the SQL of the
  actions on the database
- `src/models.rs`, `src/error.rs`, `src/json.rs`, `src/text.rs`, `src/fresh.rs`:
  records, errors, JSON, strings and identifiers
- `src/world.rs`, `src/laws/`: a model of the database and of whatever replies,
  and what holds of whole requests on it
- `app/`: the endpoints on Cloudflare Workers
