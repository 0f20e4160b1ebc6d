# woocraft

The logic of the woocraft widget library, verified with Verus: what each
widget decides, independent of how it is drawn.

- `src/` is the verified library, one module per widget concern: text
  offsets and the single-line text input (selection, IME composition,
  undo/redo), word and line selection, the rope-backed editor buffer and
  its snapshots, the soft-wrapped lines of the editor (`text_wrapper`),
  list row navigation, pagination, the calendar and date picker,
  notifications, dialog stacking, scrollbar markers, color hex input,
  keystroke text, label highlighting, badges, avatars, buttons,
  checkboxes, links, collapsible regions and list rows.
- `tests/` exercises the library on concrete values.
- `app/` holds what stays outside the proofs: the clock, chrono date
  conversions, the floating-point geometry of scrollbars and markers, and
  the floating-point stepping of number inputs.

Each module states its behaviour in `requires`/`ensures` contracts over
mathematical models; properties relating several calls (undo after an
edit, navigating back and forth in a list, parsing back a formatted
color, converting an offset to a display point and back, and others) are
public proof functions named `law_*`.
