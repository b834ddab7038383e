# rmpc_album_art

Album-art settings and the album-art pane of a terminal music player, with
their behaviour stated and proved in Verus.

- `src/config.rs`: the configuration-file section and the settings in use, the
  conversions between them (frame rate held between 1 and 12, a zero side of the
  maximum size meaning "unlimited", `~` expansion of custom loader arguments).
- `src/paths.rs`: expansion of a leading `~` to a given home directory.
- `src/pane.rs`: the pane's decisions as a state machine. Each call of `step`
  takes a handler's start or the outcome of the last action, reads a snapshot of
  the environment, and answers with the next action or the end of the handler.
- `app/`: serde/strum copies of the configuration types, the rotation speed
  (a floating-point number), reading `HOME`, and the loop that carries out the
  pane's actions on a display and a scheduler.
