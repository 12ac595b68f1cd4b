# transaction-api

The rules of a personal-finance backend (sources, spendings, earnings,
debts, investments, wishlists and shared spending groups), written in Verus
and proved against their contracts.

- `src/` is the verified library. Each request rule is a function from plain
  values (what was sent, what the store answered) to a decision: the value
  to store, or the refusal (`responses::Rejection`: status, message,
  description) the caller gets. Proof functions named `law_*` state
  properties that hold across the rules.
- `tests/` runs the library on concrete values.
- `app/` is the process around it: environment, MySQL connection, the HTTP
  clients of the login service (settings cache, account lookup), the mobile
  sync queries, and the arithmetic on `f64` amounts.

Outside crates called from the library sit behind small trusted wrappers
(`#[verifier::external_body]`) whose doc comments say what is assumed:
`uuid` parsing, `chrono` date parsing, `jsonwebtoken` decoding, and a few
`str`/`String` methods.
