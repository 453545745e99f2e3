# fonos_app

The decision logic of a voice-first desktop assistant (dictation, hands-free
calls, meetings, a skill-wielding agent, text injection, global hotkeys and a
setup doctor), written in Verus with its contracts proved.

- `src/` — the verified library. Each module states what its functions
  return over spec functions and views, and proves the laws that span
  functions (for example: a composite widget that passed validation resolves
  its references; a held hotkey fires once on press and once on release;
  pruning diagnostic logs keeps exactly the newest ones; typed text is sent
  in chunks that concatenate to its UTF-16 encoding).
- `tests/` — executable tests of the library.
- `app/` — the shell around it: serialized forms of the library's types,
  reading configuration JSON, process-wide state, floating-point geometry and
  audio math, and calls into the operating system.
