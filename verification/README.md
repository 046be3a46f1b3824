# lib — a verified single-producer, single-consumer channel

- `src/buffer.rs`: the shared ring buffer (`Buffer`), its abstract state
  (`BufferState`) and the proofs that it behaves as a FIFO queue that is
  refused a write only when every slot is taken.
- `src/peterson.rs`: the flags of Peterson's protocol (`AccessFlags`), a model
  of the protocol's atomic steps, and the proofs of mutual exclusion and of
  freedom from deadlock. The model and the code share the entry decisions
  (`turn_lets_in`, `flag_lets_in`, `yield_turn`), and `may_enter` is proved
  to decide as the model's steps do on the values it read. The values that
  the atomic loads and stores see are not observable to proofs: that the
  stores of `request` and `leave`, and the loads themselves, match the
  model's steps rests on reading their code, not on a proof.
- `src/channel.rs`: the two halves (`Producer`, `Consumer`), `channel`, and the
  decisions that the blocking loops take after each attempt, with the backoff.
- `src/lifecycle.rs`: a model of the channel's life, in which sends, drops,
  and the two halves of a receive (reading the done flag, then taking from
  the buffer) are atomic actions; the proofs that the values handed out are
  always the values accepted, in order, that a receive ends the channel only
  after everything accepted was handed out, and that an ended channel stays
  ended. Its actions use the buffer's laws and the library's receive
  decision; that the blocking loops perform exactly these actions rests on
  reading `app/lib.rs`.
- `src/error.rs`: `SendError`, `RecvError`.
- `app/lib.rs`: the blocking `send`, `recv` and iteration, which spin on the
  protocol and touch the shared buffer inside its critical section.
