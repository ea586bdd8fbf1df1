# cao_app

The decisions of a CAD sketch canvas, verified with Verus: what a click, a
drag or a key does with the tool in hand, read from plain facts about the
drawing — which points, traits and rounds lie under the cursor, how they are
joined, what has been typed.

- `src/` — the library. Each module states its behaviour in `requires` /
  `ensures` over spec functions, and the properties that span several calls
  stand as public proof functions (`lemma_*`).
  - `model` — the names of the things drawn and how they are joined.
  - `gathered` — taking and dropping things one click at a time.
  - `selecting`, `dragging`, `gestures` — the selection tool frame by frame,
    what a drag takes hold of, and the one step its release writes.
  - `dimensioning`, `measuring` — the smart dimension and the measure tool.
  - `rules` — the constraint tool.
  - `drawing`, `corners`, `copying`, `tools` — the drawing tools, the chamfer
    and fillet, the mirror and patterns, and which tool answers a click or a
    key.
  - `navigation` — who holds the camera.
  - `shading` — how a trait or a round is coloured by the freedom it has left.
  - `variables` — the panel the part's variables are edited in.
- `tests/` — the library exercised on concrete values.
- `app/` — the screens around it: reading the drawing and the input, and
  applying what the library decides to the part.
