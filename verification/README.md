# wtrs

A binding for the WiredTiger storage engine whose core is written in Verus
and verified.

- `src/` is the verified library:
  - `error`: WiredTiger return codes, the `Error` type and `check_error`,
    which turns a return code into a result.
  - `item`: byte items (keys and values), their UTF-8 reading, and `Modify`.
  - `args`: the NUL checks and C-string form of text arguments, and the
    errors of missing engine methods and null results.
  - `text`: the whitespace, trimming, line and word splitting, and
    replacement rules of `str`, stated over `Seq<char>`.
  - `build_config`: the platform filters of the WiredTiger source list, the
    feature table, and the generation of `wiredtiger_config.h` and
    `wiredtiger.h` from their templates.
  - `page_log`: the interfaces that a page log service implements.
- `app/` holds what makes foreign calls or touches files and the
  environment: the connection, session, cursor and page log handles over
  the engine's C interface, the build-time file access, and the extension
  entry points.
- `tests/` exercises the library on concrete values.
