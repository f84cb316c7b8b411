# hook

A movement recorder injected into a game client: the NUMPAD2 key records the
player's position as a waypoint, the NUMPAD1 key switches following the
recorded route on and off, and on every command tick the player is steered
towards the next waypoint.

- `src/` is the verified library (Verus):
  - `sdk/user_cmd.rs`: command-button masks, the protobuf header bits
    (`CBasePB::set_bits`), the button-state messages (`CInButtonState::press`)
    and the command ring
    (`CUserCmdManager::get_user_cmd`, `user_cmd_slot`).
  - `utils/keytracker.rs`: edge detection of key presses and releases from
    the asynchronous key state.
  - `create_move.rs`: the address offsets into the client, and `Route`, the
    state machine that decides each tick whether to record, switch, steer,
    brake or move on to the next waypoint.
- `app/` is the DLL around it: the entry point, the function hook, the
  `repr(C)` layouts of the game's structures, the memory reads, the key-state
  reads and the floating-point geometry.
- `tests/` exercises the library.
