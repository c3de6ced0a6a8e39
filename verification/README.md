# Librarian vault agent

The trusted local agent of a password and passkey vault. It alone opens the
vault; everything else asks it over an authenticated connection.

- `src/` is the agent's logic, proved with Verus: the lifecycle of the vault and
  its permits, requests from admission to answer, kept results, ownership of
  files, creating and changing a vault's database, unlocking with a password or
  with the platform's prompt, and the protected state of that prompt. Where work
  on files, databases or the platform alternates with decisions, a flow hands out
  the next action and takes in what came of it.
- `tests/` runs that logic on concrete values.
- `app/` is the process: files, database connections, threads, locks and the
  loops that perform the actions. The cryptographic core, the wire protocol and
  the platform's services come in through the traits of `app/platform.rs`.

What is believed without proof stands in a few small functions around `minicbor`,
`hmac`, `sha2`, `getrandom`, `rusqlite`, `zeroize` and one of the standard library;
each says what it claims.
