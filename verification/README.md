# hastepilot

Verified request handling for two small HTTP services:

- **hastebin**, a paste bin: `GET /health`, `POST /pastes/new`,
  `GET /pastes/{id}`, `GET /pastes` (the 50 most recent pastes). A paste
  holds at most 3200 characters and gets a random 10-character URL-safe id.
- **docker pilot**, an API-key protected front to a Docker daemon that lists,
  creates, stops and removes containers and keeps an audit log.

Layout:

- `src/` is the library, verified with Verus. `hastebin.rs` and
  `docker_pilot.rs` decide every answer; `auth.rs` checks the API key;
  `ids.rs` and `clock.rs` hold the random ids and the clock; `text.rs` the
  string helpers. A change of a container is a small state machine
  (`ContainerFlow`): the library says which Docker call or audit-log write
  comes next and how the request is answered.
- `app/` is the program: the axum routes, SQLite through sqlx, the Docker
  daemon through bollard, rate limiting and the OpenAPI pages. Run it with
  `hastebin` or `docker-pilot` as its argument.
- `tests/` runs the library on concrete requests.

Two calls outside the library can stop the program whatever the request:
creating a paste draws its id from the system's entropy and reads the
system clock, and panics when the system gives no entropy or the clock
reads before 1970.
