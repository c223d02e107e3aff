# superide

The core of the SUPER IDE as a library whose behaviour is stated in
contracts and proved with Verus.

- `src/agent`: the agent loop and its context, the skill registry, the tool
  registry and the built-in tools (files, workspace search, terminal, web
  search). A call of a tool that requires approval is answered with
  `NeedsApproval` until the call is approved. A tool call is planned by
  `Tool::execute`; when it needs a file,
  a command or a web page, it returns an `IoRequest`, and `resume` decides
  what the reply means.
- `src/ai`: the model catalog, token accounting, the provider service and
  the built-in providers.
- `src/extension_host`: manifests, activation events, the extension host and
  the registry of contributions.
- `src/mcp`: message framing and the decisions of the MCP client.
- `src/services`: the event bus, workspaces, themes, the agent and
  extension services, and the stores of JSON values by key (session state
  and settings).
- `src/chat_view.rs`: how chat messages are split into text and code, the
  step and message lists, and the chat panel's decisions: whether a
  submission goes ahead and which request it sends, the step plan of each
  agent mode and the tool each step runs, the order of a run's moves
  (`run_moves`), what a provider's reply or failure adds, provider choice,
  and the small display decisions (labels, colors, keys). `app/chat.rs`
  performs the moves: the waits, tool calls and provider call.
- `src/text.rs`, `src/string_map.rs`: string and path operations and a
  string map, with their specifications.
- `app/`: the command-line front end and everything that touches the disk,
  processes, the network or JSON.
