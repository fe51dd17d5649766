# sectxt

The verified core of a service that stores client-side encrypted messages
which expire and may be burnt on first read.

- `src/` is the library, verified with Verus: messages and attachments and
  their builders (`message`, `attachment`), time and identifiers (`time`,
  `id`), the stored records (`model`), the repository's reading of rows and
  the consuming read as a state machine (`repo`, `consume`), the HTTP bodies
  (`dto`) and the handlers' decisions, the attachment creation among them as a
  state machine (`handler`), and the service settings (`env`).
- `app/` is the service around it: axum routes, the Postgres calls that the
  state machines ask for, serde and OpenAPI derives, the cleaning task.
- `tests/` runs the library on concrete values.
