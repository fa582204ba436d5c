# workflow_runner

A tool that runs workflow scripts and keeps track of them. A request starts a run, asks how the
runs are, or cancels one; a run executes a script that hands tasks to sub-agents.

`src/` holds what the tool knows and decides, verified with Verus:

- `action`, `request`, `source`, `schema`: how a request is read, and where its script comes from
- `record`, `runs`, `document`, `json`: what is kept of a run, and how it is reported
- `driver`, `completion`: how the ends of tasks reach those who wait for them
- `tool`: how all of it changes together
- `table`, `text`, `clock`, `sync`, `error`: what the rest is made of
- `laws`: what holds of the tool as a whole

`app/` brings the locks, the files, the agents and the engine of the scripts. `tests/` runs the
library on concrete requests.
