# valence_platform

Verified decision logic for Valence platform runs on Unified Field hosts:

- **Table iters** (`src/iter/`): keyset paging over a table (`paging`), the orchestrator state
  machine that counts, pages, batches and dispatches rows and then polls for completion
  (`orchestrator`), the row worker state machine and its counters (`row_worker`), run creation
  (`run_service`) and the Chronon registration slot (`dispatch`).
- **Cascade deletion** (`src/deletion/`): the wave plan of a deletion DAG and the orchestrator
  state machine that claims a run, restores the requester, runs the plan deepest depth first
  and sets the terminal status (`orchestrator`); the step rows and the step worker state machine
  (`step_worker`); run rows, claims and waits (`run_service`); the stale-run sweep (`sweep`);
  and the debug route checks and trace lookups (`debug`).
- **Deferred TTL** (`src/ttl/`): the budgeted sweep state machine with fair per-table shares.

Every state machine takes the result of the previous action as an event and answers with the
next action; the host performs the actions. `app/` is that host: storage, Chronon and Boson
calls, the Axum debug router, and process-wide registrations. Contracts in `src/` state each
decision exactly, and the `law_*` proof functions state the properties that span several
steps (budgets, plan order, cancellation, terminal status, paging coverage).

`tests/` exercise the library on concrete values, including scripted end-to-end runs of both
orchestrators.
