# aurelis

The rules of the Aurelis game backend and of its game client, as a Verus-verified
library.

- `src/` — the verified library: request checks, account and character decisions,
  equipment and gem socketing, the services that read and decide in turn (equipping,
  socketing, loading a character, handing out items) as sequences of verified stages,
  the row operations of the storage transactions and what they do to the stored rows, inventory slot search and item stacking, the character
  snapshot, slugs, and the game client's configuration, start-up messages, forms,
  screens and panels. Calls into bcrypt, uuid, chrono, validator and serde_json sit
  behind small trusted wrappers whose contracts are documented where they are declared.
- `tests/` — tests of the library on concrete values.
- `app/` — what surrounds the library: the service drivers that perform each stage's
  read over a `Store` trait (its PostgreSQL implementation is not included), HTTP extractors and error answers (axum), web
  tokens (jsonwebtoken), the access token of gRPC calls (tonic), the storage statements
  run in PostgreSQL transactions (diesel), the JSON forms of the request bodies (serde),
  and the drop chance check, which goes through floating point.
