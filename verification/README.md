# ynsrvcs

A Discord bot whose behaviour comes from WebAssembly plugins. The bot keeps the
connection to Discord, hands every event to the plugins and gives them a small
set of calls, each of which a plugin has to be granted.

`src/` is the library. Everything in it is verified with Verus: what the frames
of the gateway come to, which requests the calls of a plugin turn into and when
they are refused, how plugins are loaded, replaced and taken out of service, how
the store that they share is read and written, and when changed files are taken
up. Calls into other crates are made in small functions whose contracts are
stated and not proved; each says so in its documentation.

`app/` is the program around the library. It reads files and the environment,
talks to the network and runs the code of the plugins, in the order and on the
terms that the library sets.

| module | what it holds |
| --- | --- |
| `bot::handler` | frames of the gateway and what is dispatched for them |
| `config::settings` | settings from the environment |
| `exception::error` | the error of the bot |
| `http` | requests as plain data |
| `json` | JSON documents |
| `paths`, `text` | paths and text |
| `ping` | a plugin that answers the command `ping` |
| `wasm::gateway` | commands that plugins send over the gateway |
| `wasm::host` | the calls of a plugin |
| `wasm::hotreload` | changes to the files of plugins |
| `wasm::kv` | the store that plugins share |
| `wasm::limits` | permissions and limits |
| `wasm::loader` | the plugins in service |
| `wasm::names` | values by name |
| `wasm::plugin` | the engine and the code of a plugin |
| `wasm::requests` | the requests that those calls turn into |
| `wasm::session` | the order of steps in which a plugin is called |
