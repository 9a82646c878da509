# rust_chat_server

A chat server whose protocol and state logic is verified with Verus.

Clients and servers exchange text commands such as
`!connect: name:bob uuid:42 host:127.0.0.1`: a command word followed by
`key:value` parameters.  The library parses and writes these commands,
keeps the registries of connected clients, and decides what each server and
client does with every message, connection and command.  Each public
function states its result in `requires`/`ensures` over mathematical models
(`Seq`, `Map`-like parameter lists, registries as sequences of client
records), and the laws that relate functions (reading back what was
written, equality of commands, registering and unregistering clients,
the stable ordering of the client manager) are proof functions.

## Layout

- `src/` — the verified library.
  - `text`, `params`, `pattern`, `buffer`, `wire`: strings, parameter maps,
    tokenising with the `regex` crate, the receive buffer, and the text
    form of commands.
  - `commands`, `library::commands`, `server::commands`,
    `server_v2::commands_v2`: the command enums of the protocol versions,
    with parsing, writing and equality.
  - `client_management`: client profiles and the registry of clients.
  - `server` (`server_v3`, `server_profile`, `client`, `utility`),
    `server_v2`, `protocols`, `library::server`: the servers and clients,
    as functions from state and input to new state and actions.
  - `status_service`, `client_api`: the status service's request handling
    and the client side of the info request.
- `app/` — the program: command line, sockets, threads, channels, JSON and
  the terminal interface, carrying out the library's decisions.
- `tests/` — tests of the library on concrete values.
