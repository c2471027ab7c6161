# api_server

The authority logic of a remote-control service, written in Rust and proved with Verus: accounts,
logins and second factors, trusted devices, device enrollment and key rotation, remote sessions,
and the audit entries that all of these leave.

## Layout

- `src/` is the verified library. Its functions take what was read (rows, request bodies, verdicts
  of verifiers) and say what follows: the answer, the records to write, and the next state of the
  in-memory database. Each has a contract over mathematical models of the records.
- `app/` is the PostgreSQL repository and the HTTP routes. A repository operation locks and reads
  rows, asks the library for a decision, writes it and commits, and hands the outcome of the write
  back to the library, which publishes the decision or answers the failure with nothing changed.
- `tests/` runs the library on concrete values.

## Reading the library

| Modules | What they hold |
| --- | --- |
| `account`, `device`, `challenge`, `session`, `audit` | the records and their models |
| `text`, `bytes`, `codec`, `names`, `hash`, `mfa` | texts, stored forms, digests and sealed secrets |
| `table`, `database`, `loading`, `persist` | the in-memory database, how it is loaded and stored |
| `rows`, `session_rows`, `sql` | stored rows and how they are decoded |
| `rules`, `factor`, `revocation`, `store` | rules that several operations share |
| `login`, `login_answer`, `login_finish` | a login, from the request to the tokens |
| `risk_challenge`, `step_up`, `enrollment`, `password` | challenges and what they allow |
| `account_sessions`, `session_store`, `internal` | account sessions, remote sessions and relays |
| `registration`, `device_requests`, `device_changes`, `device_authority` | devices |
| `auth`, `signature`, `api`, `audit_log` | what the routes check and answer |

Properties that span several functions are public proof functions, next to the functions that they
are about. What the library takes from other crates on trust is marked
`#[verifier::external_body]` and described where it stands: SHA-256 from `sha2`, sealing and
opening from `chacha20poly1305`, random bytes from `rand`, and the ASCII case of texts from the
standard library.
