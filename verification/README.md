# honestly

Backend of a small profile-feedback service: people look up a user by name and
leave positive or negative votes and comments about them.

- `src/` is the verified library (Verus):
  - `models` — user records, lookup replies and the reply envelope;
  - `utils` — random choice of the comments a lookup shows;
  - `hiker_client` — what the profile service's answer means: the lookup address,
    which statuses are read, and the user a profile describes;
  - `handlers` — the request flows (lookup, feedback) as state machines that say,
    after each store or profile-service answer, what to do next; with their laws;
  - `database` — the connection monitor's retry policy, with its bounds;
  - `error` — the reply to a request that failed inside the service.
- `app/` is the HTTP server (axum), the PostgreSQL store and the profile-service
  client: it performs each action a flow asks for and hands back what happened.
- `tests/` runs the library on concrete values.
