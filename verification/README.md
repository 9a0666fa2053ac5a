# LiteBox, verified

LiteBox runs unmodified Linux programs on other hosts. This crate holds the
logic of its Linux shim, of the macOS, Windows and LVBS platforms, and of the
macOS runner, with contracts that Verus proves.

Whatever needs the host is left to the caller. Where work and decisions
alternate, a type of the library decides and the caller acts: a first call
returns a state and an action; each answer of the host goes to `step`, which
returns the next action, until one of them ends the matter. What each answer
leads to is stated by the spec function `next` of the type.

* `src/mm`: mapping of files, patching of their code, and trampolines
* `src/shim`: requests of a guest and how they are carried out, processes
* `src/page_mgmt.rs`: what a platform offers to manage pages
* `src/macos`, `src/windows`, `src/lvbs`: the platforms
* `src/runner`, `src/headers.rs`: the command line, the files a program starts
  with, and the notices of source files
* `app`: the runner's program, and the loops that carry out actions. A guest
  runtime (file system, program loader, functions behind the requests) is
  linked in by implementing `guest::Runtime`.
