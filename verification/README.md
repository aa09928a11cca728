# deployer

A self-hosted deployment control plane: signed GitHub pushes become queued jobs, a
job runs the steps of its project's pipeline while it holds the lock of its
branch, a health check follows, and what was deployed can be retried, deployed
again or rolled back to.

The rules are a library, written in Verus and proved against their contracts; the
program around it does the input and output.

## Layout

- `src/` is the library.
  - `status`, `job`, `config`, `time`, `api`: the data.
  - `store`: the jobs in memory, their order, and the branch locks.
  - `queue`: how a request becomes a job; `operator` and `webhook`: who may ask.
  - `signature`, `auth`: webhook signatures and access tokens.
  - `template`, `pipeline`, `shell`, `healthcheck`, `artifact`, `run`: how a job is
    carried to its end. Each is a machine: it is told what has happened and says
    what is to be done.
  - `records`: the database rows of jobs and deployments.
  - `history`: what holds of the store over whole histories.
  - `text`: operations on strings.
  - `outside`: the calls into other crates, with what is trusted of them.
- `app/` is the program: HTTP server, workers, database and configuration file. It
  performs what the library asks for and hands back what came of it. It serves the
  page `web/index.html` from its working directory.
- `tests/` runs the library.

Proof functions whose documentation starts with "Law" state what the library
promises as a whole, such as that one job at a time runs on a branch, that a
rollback deploys the image of the earlier deployment, and that every run gives its
lock back.
