# kotovoe

A cat-swiping web service: users register, sign in, swipe cat pictures, keep the
ones they like in an album, and see the best-graded cats.

- `src/` is the verified library (Verus):
  - `codec` — Base64 transport of images and their `data:` URLs;
  - `token` — HS256 session tokens that expire fifteen minutes after issue;
  - `password` — Argon2 password hashes in PHC form;
  - `api` — what each HTTP handler answers for the outcome of its database work;
  - `album` — how a liked cat enters an album or climbs a grade;
  - `front` — the web front end's decisions (endpoints, swipes, medals, URLs).
- `app/main.rs` is the HTTP server around it: routing, PostgreSQL queries, JSON and
  cookies.
- The original's web front end (Dioxus pages and components, browser storage and
  requests) is not in this crate: its decisions stand in `src/front.rs`, but its
  rendering and browser I/O need web-only crates that are not available here.
- `tests/` exercise the library on concrete values.
