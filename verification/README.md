# Alegría

The bookkeeping logic of a point of sale for a bar with a small hotel,
verified with Verus.

Every screen is a state machine: a function from the screen's state and a
message to the next state and an *action*, the instructions for the parent
screen and the outside work (database queries, printing) for the caller to
carry out. Each `update` is proved to compute exactly what a spec function
(`bar_step`, `clients_step`, `reservations_step`, …) says over the views of
the state.

## Layout

- `src/bar/` — the bar till: tables in three locations, temporal tickets,
  product lists, the numpad editing of a ticket line, printing and paying;
  `laws.rs` holds what the till keeps whatever the state.
- `src/hotel/` — the hotel's pages: clients (with search and selection),
  rooms, room types, reservations (the calendar, its period and the form
  that adds a reservation) and the hotel screen that routes between them;
  `laws.rs` holds the pages' laws.
- `src/application.rs` — the application around the screens: waiting for
  the database, the welcome screen and the bar till.
- `src/hotel_subscreens/` — the required fields of the client form.
- `src/dates.rs` — calendar days, the text format of the forms and the day
  arithmetic (computed by `chrono`), with the laws that written dates read
  back.
- `src/text.rs` — digits, decimal numbers, integer parsing, substring search
  and the price text rule.
- `src/pagination.rs`, `src/entities.rs`, `src/numpad.rs`, `src/models.rs`,
  `src/action.rs`, `src/lists.rs` — paging, the stored enumerations, the
  numpad keys, the records and the shapes shared by the screens.
- `tests/` — scenarios for every screen.
- `app/` — the command line, a line-driven runner of the application state
  machine (it lists the database work it cannot run, as no database driver
  is linked), floating point prices, the numpad's hit testing and the
  serialisable forms of the stored enumerations.
