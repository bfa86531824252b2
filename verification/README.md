# awswap

Switches between AWS profiles: checks a profile's credentials, signs in where
they have expired, remembers the choice, logs Docker and Helm in to the
profile's container registries, and reports and diagnoses the set-up.

The library in `src/` holds all that is decided and computed, verified with
Verus. The program in `app/` reads the command line and the environment, and
carries out what the library asks for.

A run is a `Session` (`src/session.rs`). It asks for one action at a time: to
read a file, to run a program, to write the state, to have the user choose, or
to end. `Session::resume` takes the reply and goes on.

- `text`, `ordered`, `utf8`, `json`, `style`: text, sorted sets of text, bytes
  read as text, JSON, and colours.
- `platform`, `paths`, `config`, `state`, `settings`: how paths are written, where
  files are, what the AWS configuration says, what is remembered between runs,
  options and environment.
- `distance`, `choice`: which profile was meant, and choosing one from a list.
- `command`, `failure`, `identity`, `credentials`: calls of other programs, what
  their failures mean, who the caller is, and renewing credentials.
- `registry`, `login`: container registries and the login to them.
- `shell`, `report`, `doctor`: shell hooks and completions, and what is printed.
- `cli`, `session`, `flow`: the command line and the course of a run.
- `printing`, `waiting`, `ending`: what holds of every run.
