# schedule_bot

A Telegram bot that shows the timetable of a university group (from the
`ruz2.spbstu.ru` timetable service) and can send tomorrow's lessons every evening.

- `src/` is the verified library (Verus): callback-data parsing and the decision of
  what each button shows (`bot`), the keyboards and their callback data (`keyboard`),
  the Markdown texts built from the service's answers (`schedule`, over the JSON
  model in `json`, which `serde_json` reads from the answer's text), the service
  address (`service`), the database rows (`models`) and character-level helpers
  (`text`). `bot` also proves that the buttons of the group
  menu and of the week view open the views they name, for group identifiers without
  commas (the week view's back button also needs an identifier free of the words
  `day`, `week` and `notify`, and its neighbouring weeks an offset away from the `i64`
  limits). The menu shown after switching notifications is the exception: its
  "tomorrow" button carries `day,notify,1`.
- `app/` is the program around it: the Telegram update loop (`telegram-bot`,
  `tokio-core`), the SQLite database (`diesel`), the HTTP
  fetch (`reqwest`) and the clock (`chrono`).
- `tests/` runs the library on concrete values.
