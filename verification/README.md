# dsh-desktop

The decision logic of the DeepSeek Harness desktop shell, written and verified
in Verus, with the shell itself around it.

The shell keeps a local copy of the harness source (the runtime) at its newest
revision, installs its dependencies, builds it, starts its service and shows the
page in a window. What it decides on the way is in `src/`; what it does to the
disk, the network, processes and the window is in `app/`.

## Flows

Most of the logic alternates with work that only the outside world can do. Such a
flow is a value that names the next piece of work together with what waits for
its answer. The caller carries out the work and resumes the flow with the answer,
until the flow says that it is finished. Each step is proved equal to a
transition function, and the laws say what whole runs come to, whatever the
answers are.

| Module | Subject |
| --- | --- |
| `boot`, `boot_laws` | the launch, from the bundled tools to the open page |
| `runtime`, `runtime_laws` | bringing the runtime to its newest revision at launch |
| `force` | the same on the user's request |
| `archive`, `archive_laws`, `download`, `download_laws`, `disk` | unpacking the bundled snapshot, downloading the archive, and what that leaves on the disk |
| `steps` | installing dependencies, building |
| `upgrade` | the upgrade that the update panel starts |
| `bridge`, `bridge_laws` | the loopback bridge of the update panel |
| `server` | probing, waiting for, starting and stopping the service; free ports |
| `git`, `updates`, `proxy` | git commands, version lookups, the system proxy |
| `settings`, `tools`, `search` | environment settings, paths, searches |
| `script`, `text` | page scripts and string literals, text primitives |

## What is trusted

* `String::push` appends its character (`text`).
* `serde_json::from_slice` reads the same members from the same bytes
  (`updates`).

## Settings

| Variable | Meaning | Default |
| --- | --- | --- |
| `DSH_PORT` | port of the service | `3080` |
| `DSH_RUNTIME_DIR` | directory of the runtime | below the application data |
| `DSH_TOOLS_DIR` | directory of the bundled tools | beside the program |
| `DSH_LOCAL_SOURCE` | local git source | none |
| `DSH_SKIP_UPDATE=1` | use the runtime as it is | off |
