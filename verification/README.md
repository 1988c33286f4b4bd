# actix_admin

The logic of an administration backend, verified with Verus: the builder
that collects entities, custom pages, card grids and menu entries into a
route plan; the navigation menu, kept in category order; the decisions of
the entity routes (show, edit, delete, bulk delete, download and removal of
uploaded files, create and edit forms, search); and the upload paths, which
never leave the upload directory.

- `src/` — the verified library. `builder.rs`, `menu.rs`, `card_grid.rs`,
  `routes.rs`, `upload.rs`, `model.rs`, `search.rs`, `view_model.rs` and
  `error.rs` hold the logic; `text.rs`, `keyed.rs` and `form.rs` the string
  operations, string-keyed maps and form decoding they rest on.
- `app/` — the web side, unverified: it turns the route plan into an axum
  router, removes and serves files, renders template-only pages and
  serialises answers.
- `tests/` — tests of the library on concrete values.
