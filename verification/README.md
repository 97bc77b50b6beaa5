# heuristics

Heuristics for content discovery against web servers, verified with Verus:

- `connectivity`: which of the given targets answer at all;
- `listing`: whether a page is a directory listing, and of which kind of server;
- `detection`: what a server sends for things that do not exist, and which filters keep it out of
  the results. `not_found` compares the responses, `runs` states what holds of a detection as a
  whole.

The library under `src/` decides; it never touches the network. A check or a detection is a value
that says what is to be done next and takes what came of it. `app/` holds the loops that do it.
`uuid` supplies random names and `scraper` parses pages; what is claimed of them stands with the
functions that call them, in `unique` and `html`.
