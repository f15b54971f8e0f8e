# clap_validator

The decision logic of a validator for [CLAP](https://github.com/free-audio/clap) audio
plugins, verified with Verus.

The library (`src/`) holds what the validator decides about a plugin: whether its descriptors,
parameters, audio and note ports, preset declarations and output events are valid; how the host
answers each callback a plugin makes; the plugin lifecycle; the checks run on audio buffers after
a process call; the state streams; and the fuzzer's and validator's bookkeeping. Every public
function states its result in its contract, and the properties that span functions are stated
and proved as proof functions (named `lemma_*`).

Modules:

- `text`, `keyed`: reading C strings as text, and a map from strings kept in key order.
- `library`, `index`: plugin and preset provider descriptors, and where plugins are looked for.
- `preset`, `receiver`, `indexer`: preset discovery, as declared through the indexer and the
  metadata receiver.
- `params`, `ports`: parameter and port descriptions.
- `events`, `buffer`, `transport`: events, the audio buffer checks after a process call, and
  the transport and constant-mask bits.
- `host`, `callbacks`, `registry`, `stream`, `tracing`: the host side of the plugin API.
- `status`, `config`, `panic`, `fuzz`, `runner`, `duration`, `settings`, `listing`: test
  outcomes, the fuzzer's decisions (from the draws of a seeded run, step by step), and the
  command-line side, including what the plugin and preset listings show.

`app/` is the command-line program around the library: it loads plugin libraries, follows the
plugin's pointers, and prints what the library accepted. It offers the `list plugins` and
`list presets` commands; it does not host plugins for processing, so the validator's tests and
the fuzzer, whose decisions the library holds, are not run by it. `tests/` runs the library on concrete
values.
