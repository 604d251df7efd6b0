# folder_agent

The decision logic of a folder-organizing agent, verified with Verus: a
request in plain words is read into an intent, a recommendation is turned into
a plan of filesystem operations, the plan is validated against the filesystem
and the user's constraints, a policy decides whether it may run, and the
execution is logged, verified and can be undone.

The library never touches the disk itself. Every function that depends on the
filesystem takes what was observed as a value (`FsSnapshot` for the status of
paths, `CapturedState` for directory contents, `MetadataProbe` for sizes and
modification times), and every step that changes the disk is split in two: the
library decides (`Executor::decide`, `Executor::undo_step`, `guard_check`), the
caller performs the returned action and hands back what happened
(`Executor::conclude`, `Executor::undo_conclude`, `guard_conclude`). A whole
run or undo is recorded from what the caller observed at each step (the
filesystem before it and the outcome of its action), and the library makes
the same decisions again from those observations, so the log cannot say
anything the decisions do not.

Layout:

- `src/` — the verified library, one module per stage (`intent`, `plan`,
  `proposal_converter`, `validate`, `policy`, `executor`, `verification`,
  `operation_guard`, `recommendation`, `clarification`, `proposal_refiner`,
  `proposal_refinement_parser`, `proposal_refinement_service`, `pipeline`)
  over shared path, snapshot and text helpers. The `law_*` proof functions
  state the properties that hold across calls.
- `tests/` — tests on concrete values.
- `app/` — the unverified shell: probing the disk into snapshots, carrying out
  the actions, the cooperative scope lock, and the JSON exchanged with a model.
