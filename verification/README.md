# jpetstore-rs

The domain logic of a JPetStore-style pet store, verified with Verus.

- `src/` is the library: catalog ids and money (`domain/catalog.rs`), the
  session cart (`domain/cart.rs`), checkout data and order line items
  (`domain/order.rs`), registration data (`domain/account.rs`), argon2
  password hashing (`auth.rs`), the decisions the request handlers make
  (`web/`), and the text primitives they are written with (`text.rs`).
  Every function carries a contract over the values' views; laws about how
  the operations relate are public proof functions beside them.
- `app/` is the server around it: axum routes, tower-sessions, SQLite
  through sqlx, and askama pages.
- `tests/` runs the library on concrete values.
