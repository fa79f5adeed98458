# butai_workbench

The core of a terminal workbench client, verified with Verus, and the client
around it.

The library under `src/` decides what a key, a click, a paste or an answer from
a machine does to the screen, and what has to be asked of whom because of it.
It does no work outside itself: `flow::run_flow` and `answer::answered` return
an `Action`, which says what is to be done next, and whoever does it hands the
outcome back.

| module | what it holds |
| --- | --- |
| `text`, `encode`, `path` | texts, URLs, shell words, links, paths |
| `types` | keys, pages, boxes, the view, and the flows that a key asks for |
| `bench`, `overlay`, `project`, `git`, `pages`, `settings`, `menu`, `click`, `input` | what keys and clicks do |
| `roster`, `named`, `machines`, `redial` | the machines: their tabs, their names, connecting and coming back |
| `stage`, `screen`, `frame`, `paint` | the pane on the stage, the cells of the terminal, which of them are written, the layers of a repaint |
| `request`, `chosen`, `updates`, `session`, `flow`, `answer` | what is asked of a machine, and what becomes of the answer |

A type that holds text takes the type of that text as a parameter: the program
works on `String`, and the contracts on the same type over `Seq<char>`.

The client under `app/` reads the terminal, talks to the machines and carries
out the actions. What draws and measures the screen, what reaches a machine and
what keeps the configuration come to it as traits.
