# zingo

A verified library for a Zcash light wallet: the arguments of its send and shield commands,
restrictions on which addresses it spends from, overrides of activation heights, and the
decisions of a daemon that shields coinbase rewards.

* `src/` is the library. The functions state in their contracts what they return or change, and
  Verus proves it. What the clock says, which delay is drawn, and what the platform makes of a
  path is stated only as far as it holds everywhere. Calls into other crates stand behind small
  functions whose contracts are trusted; each says so in its documentation.
  * `commands` reads the arguments of the commands, `json_value` the JSON in them, `payments`
    the addresses, amounts and memos.
  * `restrictions` holds the index ranges that a spend can be limited to.
  * `activation` keeps the overrides of activation heights.
  * `auto_shield` is the daemon: its configuration, what it asks a full node, what it makes of a
    block, and how it works off its queues. `queue_laws` and `runner_laws` state what holds of
    whole passes.
* `tests/` runs the library on concrete values.
* `app/` is the daemon's program: files, network, the wallet and the clock around the library.
