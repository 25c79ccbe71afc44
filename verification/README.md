# sublogger

A logger that prints messages to the console in a standardized way while also
writing them to a log file. Loggers can be nested: a sub-logger shares everything
with its parent and adds a prefix of its own.

- `src/` is the library, verified with Verus. It decides which message goes
  where, renders the text, and says step by step what is to be done with the
  console and the log file. `src/laws.rs` holds what is proved across functions.
- `app/` is the logger that programs use: it reads the clock, writes to the
  console and to files, and serves the `log` facade.
- `tests/` runs the library on concrete values.
