# drizzle

The logic of Drizzle, a GTK weather application built on the Open-Meteo
services, as a verified library, with the window around it.

- `src/` is the library, checked by Verus: weather codes and their icons,
  UV index bands, the conversion of forecast tables into hourly and daily
  entries, the request URLs, the hourly advice and how it is grouped into
  spans of time, and the state and decisions of the main window and the
  dialogs. Measurements are IEEE-754 binary64 numbers held by their bit
  patterns (`binary64`), compared exactly as IEEE-754 orders them.
- `tests/` runs the library on concrete values.
- `app/` is the program: the GTK/libadwaita window (relm4), the HTTP requests
  (reqwest), the JSON shapes of the answers (serde), and the settings store.
  It hands the library plain values and performs what the library's `update`
  functions ask for.
