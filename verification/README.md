# serpentine_backend

The backend of Serpentine: it reads a JSON configuration, serves an HTTP
interface and stores metrics in a JSON file.

- `src/` is the library, verified with Verus:
  - `config`: the configuration types, their default, and the JSON
    configuration provider that holds what was read;
  - `interface`: the interface configuration, the decision taken when the
    HTTP provider fails to start or exits, and in `interface::builtin::http`
    the listener configuration, the state machine that decides the outcome of
    binding the listeners, the feature registry and the backend information;
  - `metric`: metric values and the JSON metric store (a map from key to
    samples, its writes and its loading);
  - `misc_util`: decimal rendering of integers;
  - `auto`: the interface of automotive data sources.
- `app/` is the program around it: command line, the system clock, file and socket I/O, the
  HTTP server, tasks and serde (de)serialization.
- `tests/` exercise the library.
