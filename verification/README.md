# build_o_tron

A small continuous-integration service. A web server shows what was built and takes push events from
GitHub, a driver hands jobs to runners, and runners build commits as their goodfiles, Lua scripts,
say.

`src/` is the library: the records, the statements, the pages, and the decisions of every program, each
with a contract that Verus proves. `app/` is the programs around it: they talk to SQLite, to sockets,
to processes and to Lua, and ask the library what to do next. `tests/` runs the library, some of it
against a real database.

| module | what it is about |
| --- | --- |
| `text`, `paths`, `order`, `json` | texts, Unix paths, stable ordering, JSON values |
| `sql`, `dbctx`, `rows`, `hosts` | records, statements, what rows stand for, and how hosts keep their ids |
| `protocol` | messages between driver and runner |
| `web`, `commit_page`, `metrics`, `repo_page`, `jobs` | the pages |
| `server`, `webhook`, `github`, `notifier` | the web server, events from GitHub, and who is told |
| `runner`, `goodfile`, `host_info`, `io` | the runner |
| `driver`, `ctl`, `frontend` | the driver, the tool for the database, and the read-only front end |

Laws, proof functions that relate several functions, stand beside the functions they speak of. What
the library takes on trust are the outside calls marked `external_body`: `serde_json`, `hex`, `hmac` with
`sha2`, `base64` and `chrono`, the conversion of bytes from UTF-8, and the clock. The doc comment of each
says what it claims.
