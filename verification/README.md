# Cache Flow backend, verified core

The authentication backend of Cache Flow (registration with an e-mailed
one-time code, e-mail verification, login with signed access and refresh
tokens), with its decision logic written in Verus and proved against its
contracts.

Layout:

- `src/` — the verified library.
  - `time.rs`, `text.rs`: instants in UTC and their arithmetic; decimal and
    zero-padded number formatting.
  - `config.rs`: settings and the database connection URL.
  - `domain/entities/`: users, one-time e-mail codes (stored as SHA-256
    hashes), accounts, categories, operations, transfers, sync records.
  - `services/auth.rs`: registration, e-mail verification, login and lookup
    as state machines. Each step takes the answer to the previous storage or
    signing request and returns the next request or the result; the laws of
    the flows (progress, the issued code verifies until it expires, a
    registered password logs in, refusals) are proved there.
  - `api/`: request checks, how users and errors are shown, bearer-token
    extraction.
  - `infrastructure/email/`: the verification page and message.
- `tests/`: tests of the library on concrete values.
- `app/`: the server: configuration loading, PostgreSQL repositories, SMTP
  sending, token signing and checking, HTTP handlers, and the loop that
  drives the state machines.
