# conference_planner

A planning tool for conferences, split into small web services (speakers,
sessions, schedule, a frontend and a load generator) that can be told to fail
or to slow down at random.

- `src/` is the library, verified with Verus: the example data and the
  lookups of the services, the answers they assemble from each other's JSON
  replies, the failure and delay injection and how it is configured, the
  frontend's pages, the load generator's choice of target, and decimal
  reading and writing of numbers.
- `app/` holds the programs around it: the actix-web servers and middleware,
  HTTP calls, tracing, template rendering and the load generator's loop.
  Run it with one of `speaker`, `session`, `schedule`, `frontend` or
  `loadgenerator` as its argument; the frontend reads its handlebars
  templates from `templates/` at start-up.
- `tests/` runs the library on concrete values.
