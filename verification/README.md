# frun

A lightweight background task manager: a daemon runs commands in named sessions, remembers what
goes through them, and lets clients attach to them, list them and delete them.

Some programs notice that they do not run in a terminal and put out what they write late. For
Python, `frun run test_session -- python -u test_script.py` helps; other programs have similar
switches.

## Layout

- `src/`: what the daemon and the client decide, verified with Verus.
  - `daemon`: how the daemon starts, the state of a session, what is done for a request
  - `delete`: how a session is deleted
  - `sessions`: the table of sessions; `lifecycle`: what becomes of it over time
  - `history`, `chunk`: what a session remembers
  - `relay`: how bytes pass between a session and its clients
  - `pump`: the loops that read, write and flush; `forward`: the two loops of an attached client
  - `connect`: how a client reaches the daemon, or starts one
  - `client`: what a client does for a command; `notice`: what it tells its user
  - `protocal`: requests, responses, and how they are framed
  - `text`: decimal numbers and the search for a part of a text
- `app/`: the program around it: connections, processes, files, the terminal, the encoding of
  messages.
- `tests/`: the library at work on concrete values.
