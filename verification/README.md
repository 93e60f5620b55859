# cosmicmsg

Query and control logic for the COSMIC desktop, verified with Verus.

- `src/` is the verified library. It holds the compositor's state as plain
  values (workspaces, groups, outputs and windows named by their protocol
  ids) and decides everything the command line and the MCP server do:
  which workspace or window a selector picks, the JSON reports and their
  order, the output → workspace → window tree, the events of subscribe mode,
  the requests each workspace and window command sends, the human-readable
  lines, the capture session's decisions, pixel conversion and PNG encoding,
  the emulated input frames and the retry rules of remote input.
- `tests/` runs the library on concrete states.
- `app/` is the program around it: the Wayland connection and event loop,
  the portal and EIS plumbing, the MCP server, file and terminal output,
  JSON serialization and the floating-point resize.
