# living-canvas

The verified core of a card-based desktop: which cards exist and how they are named in saved
layouts and routes, what the launcher and dock offer, how terminal output with ANSI escape
sequences becomes styled spans, and the decisions the tool and Mind cards make about what to say
and do.

- `src/card.rs` — card identities, keys, instance keys, titles and type bounds, with the laws that
  keys round-trip and instance keys never alias.
- `src/applications.rs` — the launcher catalogue and the dock, with the laws that nothing is filed
  twice, the dock and every system card are in the launcher, and no heading is empty.
- `src/ansi.rs` — the escape-sequence parser, proved to keep every visible character in order and
  never to produce an empty span.
- `src/cards/` — one module per card or concern: headlines and count lines that never read an
  unanswered owner as an answer, the live Presence stream buffer, editor buffers and the tab strip,
  file-manager paths, names and the guard against stale answers, form validation, filters and labels.
- `src/text.rs` — decimal rendering, trimming, splitting, comparison and search over characters.
- `app/` — the serde forms of the card types, the fractional-pixel geometry, and the UUID and
  byte-boundary checks made before calling the library.
