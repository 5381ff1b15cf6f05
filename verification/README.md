# amnezia-xray-admin

Administration of an Xray VPN server (VLESS with XTLS-Reality) that runs in an Amnezia container:
from the terminal, by command, by Telegram, and through an HTTP agent on a bridge.

The crate has two parts.

- `src/` is the library, written in Verus. It holds what the program decides and computes, with
  contracts that are proved: the two documents of the server (`server.json` and `clientsTable`) and
  how users are added, removed, renamed and routed in them; the shell commands that are sent and
  how their answers are read; the URLs of users; the screens, the commands and the conversations
  as state machines; the protocol of the HTTP agent.
- `app/` is the program around it, in ordinary Rust: the command line, the configuration file, SSH
  and `docker`, HTTP, Telegram, and drawing on the terminal. It performs what the state machines
  ask for and hands the results back to them.

| module | what it is about |
| --- | --- |
| `text`, `decimal`, `order`, `seqs`, `display` | text, numbers, sorting, filtering, columns |
| `json` | JSON values, how they are edited, read and written |
| `xray` | the server: documents, routes, commands, answers, URLs, operations |
| `backend` | connecting, what is asked of the server, the dashboard |
| `bridge_client`, `bridge_config`, `http_agent` | the bridge and its agent |
| `config`, `cli` | configuration, the commands of the command line |
| `app`, `ui` | the screens |
| `telegram` | the bot |
| `deploy` | putting the bot on the server |
| `work` | what commands and conversations ask of the server |

The laws that hold over several functions are public proof functions whose names begin with `law_`,
most of them in the files `laws.rs`.

What is believed without proof stands behind functions with the attribute `external_body`: parsing
and writing JSON (`serde_json`), base64 (`base64`), zlib (`flate2`) and random ids (`uuid`). Beside
them `text.rs` gives `String::push` its contract by an `assume_specification`.

`takecell` is named in `Cargo.toml` only to hold it to a version: `teloxide` depends on it, and
version 0.1.2 needs Rust 1.96.
