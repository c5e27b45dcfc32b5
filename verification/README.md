# dsh_desktop

The verified core of a desktop shell around the DSH runtime, written in Verus.
The core decides; the code around it acts.

- `src/` holds the core. Every function carries a contract over mathematical
  models, and the laws that span functions stand beside them as proof functions.
- `tests/` runs the core on concrete values.
- `app/` is the desktop itself: windows, menus, files, processes and web
  requests. It asks the core what is to be done and hands back what came of it.

| Module | What it decides |
| --- | --- |
| `supervisor`, `termination`, `runtime`, `controller` | the life of the runtime process, what is shown of it, who may act on it |
| `launch` | how the runtime is started |
| `check`, `npm`, `http`, `versions` | whether there is a newer release, and where it comes from |
| `install`, `restore`, `state`, `location` | how a release becomes the active one, and how to go back |
| `plugin_job`, `pnpm`, `plugin_spec`, `plugins`, `entries` | how plugins are added, removed, enabled and disabled |
| `hub` | the plugin market |
| `shell`, `steps` | menu, windows, and the steps of a job as the user sees them |
| `json`, `text` | JSON texts and strings |

Versions are compared by the `semver` crate and JSON is read and written by
`serde_json`, each behind a small function whose contract is trusted.
