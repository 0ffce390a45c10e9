# todo_domain

The rules of a to-do application with offline sync, written in Verus and
proved against their contracts.

- `src/` — the verified library. The task contract and its validation
  (`contracts`), the proleptic Gregorian day arithmetic (`civil`), the lunar
  calendar read off tabulated new moons and solstices (`lunar`, `sky`), holiday
  arrangements (`holidays`), the recurrence engine (`recurrence`) and habit
  streaks (`habit`), task dependencies (`dependency`), reminders, overdue nags,
  quiet hours, the morning summary and one scheduler pass (`reminder`, `renag`,
  `quiet`, `summary`, `notification`, `scheduler`), iCalendar export (`ics`),
  and the sync server's decisions: accepting operations (`sync`), request and
  lock-wait metrics (`metrics`), health alerts (`health`), snapshot naming and
  pruning (`backup`), and the desktop store's schema and pending-write rules
  (`client_store`). Laws that span several functions stand as public proof
  functions beside them.
- `tests/` — executable tests of the library on concrete values.
- `app/` — the sync server program: HTTP routing, the SQLite log, the clock,
  the snapshot schedule and the health rules that read floating-point
  thresholds. It hands the library plain values and acts on what it answers.
