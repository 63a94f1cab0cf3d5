# psmux

A terminal multiplexer: sessions of windows and panes that outlive the terminal they are shown on.

* `src/` is the library, verified by Verus. It holds what the program decides and computes, as
  functions of plain values with exact contracts.
  * `cli` reads the command line and builds the lines that go to a server.
  * `server` is what a server does with each request: windows, panes, clients, buffers, options,
    keys, hooks, copying, menus, frames, control clients, and the order of its loop.
  * `platform` is the way to consoles and processes: command lines, trees of processes, and walks
    through system calls as state machines that take the replies.
  * `text`, `utf16`, `dict` and `color` serve the others.
* `app/` is the program around it: arguments, files, sockets, pseudo terminals and system calls.
* `tests/` runs the library on given values.

Where the library calls something that is not verified, a contract states what is relied on: a few
functions of the standard library for text and UTF-8, and `chrono` for the text of a time.
