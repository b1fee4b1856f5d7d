# odoopod_core

The verified core of OdooPod, a tool that creates and runs local Odoo
instances without containers.

- `src/` is the library, verified with Verus: the registry of instance
  configurations, the choice of free ports, the life cycle of an instance
  (configured, ready, running), the step-by-step preparation of an instance,
  the `uv` and PostgreSQL bookkeeping, the configuration file and the command
  lines, and the path and text helpers they rest on.
- `app/` is the `odoopod` command line: it reads and writes files, runs
  processes, downloads archives and drives the embedded PostgreSQL servers,
  doing what the library decides.
- `tests/` exercises the library on concrete values.
