# web_routes

The logic of showing a router's routes in a browser, and of reading the query of
a request, verified with Verus.

- `src/` is the library. It never touches a browser or a socket: it is told what
  they show and answer, and tells what to do next.
  - `web_history`, `hash_history`: history providers with the route in the path
    or in the fragment of the address.
  - `push`, `fallback`, `outcome`: what becomes of a push that the browser drops
    or refuses.
  - `scroll`: keeping and restoring the scroll position.
  - `query`: deserializing a query with `serde_qs`.
  - `location`, `text`: addresses and text.
- `app/` acts on a window and plugs into `axum`.
- `tests/` runs the library.
