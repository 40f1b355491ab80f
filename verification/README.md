# clonedir

Copy-on-write directory cloning with explicit semantics: a fresh, independent
copy of a tree whose regular files share extents with the source (APFS
`clonefile` on macOS, `FICLONE` on Linux), published atomically from a
private stage, refused when the source changes while it is copied, and never
written over an existing destination.

## Layout

- `src/` is the library, verified with Verus. It decides, for both
  platforms, what the command does and in what order, and holds the formats
  it reads and writes. Each operation that touches the file system is a
  state machine: the caller performs the action it asks for and hands back
  what happened.
  - `preflight` — the checks a clone's inputs pass, in order, before
    anything is created; `plan` — each of those checks;
  - `run` — a clone from the sweep of stale stages and the creation of its
    own stage, through the walk and the check that the source held still,
    to its exclusive publication and the removal (or keeping) of the stage;
  - `walk` — the walk over the source: entries taken in name order (`order`),
    depth first, each directory finished after its contents; what each
    entry becomes, the receipt's counters, the space floor and its
    periodic recheck, cancellation, and the change check;
  - `removal` — removing a tree; `survey` — measuring one, with each inode
    counted once (`measure`);
  - `stage` — stage names, owner records, which stages a sweep removes, and
    what a failed clone reports;
  - `sys` — platform answers as plain values: which errors mean "cannot
    share extents" on Linux and on macOS, the APFS sharing attributes,
    process probes, free space;
  - `cli` — the command line and its `--min-free` sizes; `report` — the JSON
    and text the command prints;
  - `error`, `options`, `text` — errors and exit statuses, clone options,
    numerals and lines.
- `app/` is the command around it: system calls (both platforms, chosen at
  build time), reading directories and metadata, copying bytes, signals and
  printing. It performs what the library's state machines ask for and hands
  back what happened. The library sees paths as text, for its messages and
  reports; the file system work uses the paths as the system names them,
  so a path that is not valid UTF-8 is still the one worked on.
- `tests/` runs the library on concrete inputs.
