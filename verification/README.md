# wrkflw

A local runner for GitHub Actions workflows and GitLab CI pipelines, whose
decisions are verified with Verus.

- `src/` is the verified library: the workflow and pipeline models, job
  dependency planning (batches, cycles, missing needs), the expression
  language's lexer and parser and its reference classification, the
  environment a run and each job and step see, the commands and container
  settings of steps and actions, composite and reusable workflow handling,
  the `::set-output` commands and `GITHUB_OUTPUT`/`GITHUB_ENV` files
  through which steps hand back outputs and variables, resource tracking
  and the result reports. Every function carries a
  contract; the laws of the planner, the string order, the image tags and
  the logger stand as public proof functions.
- `app/` is the program around it: reading files, talking to Docker and
  Podman, running processes, evaluating expressions over numbers, and the
  async loop that carries out what the library decides.
- `tests/` exercises the library from outside.
