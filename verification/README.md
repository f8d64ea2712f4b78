# calendar_task_api

The core of a calendar and task management HTTP service (users, calendars
with members, tasks with assignees, labels and comments), written in Verus.

- `src/` is the verified library: request validation, the authorization
  decisions of every endpoint, error responses, password hashing, access
  and refresh tokens, UUID and hexadecimal text, decimal parsing and the
  service's settings. Calls into `argon2`, `jsonwebtoken`, `sha2`, `hex`,
  `uuid`, `rand`, `chrono` and `validator` stand behind small trusted
  wrappers whose contracts are stated in their doc comments.
- `app/` is the HTTP server around it (actix-web, PostgreSQL through sqlx,
  JSON through serde): each handler performs the database work and asks the
  library for every decision in between.
- `tests/` exercises the library on concrete values.
