# webcodex-runner

The logic of a runner that executes work on a host on behalf of a server: how its configuration is
loaded, checked and replaced while it runs, and how it talks to the local MCP providers that the
configuration names. `src/` is a Verus library: every function in it states its result and is
proved. `app/` is ordinary Rust around it: files, processes, threads, clocks and serialization.

## Layout

- `config`, `validate`, `providers`, `toml_shape`, `transport`, `paths`, `env_keys`: the sections of
  a configuration and what is wrong with one
- `bridge`: the bundled provider that is added where its assets are in place
- `load`: the order of the checks and what a loaded configuration is
- `reload`, `reload_report`, `diagnostics`: checking and activating a candidate, what is reported of
  it, and that the reports name what the checks complain of
- `json`, `rpc`, `exchange`: JSON values, lines, messages and requests over the streams of a provider
- `tools`, `connection`, `entry`, `table`, `gateway`: what providers offer, how they are started,
  their state, and the gateway that routes requests to them
- `scripted`, `fields`: a provider that plays a script, for trying the gateway out
- `cli`, `lsp`, `jobs`: the command line, language server documents, and shell jobs
- `text`, `faults`, `members`: texts, ordered checks and named members

Work that only the host can do is kept out of the library in one way throughout. Small steps judge
what came back from the host, one event at a time, and `app/` runs them. A whole operation beside
them takes everything that came back as arguments, and its contract says what the steps come to.

Laws that relate several functions are public proof functions in the modules that they are about.

The calls into `serde_json`, `toml` and `uuid` stand behind trusted functions in `json`,
`toml_shape` and `entry`. Their doc comments say what is believed of each call.
