# h3_stream_repro

Two demonstrations around HTTP/3 streams that a client cancels, with their logic verified in
Verus.

* **The STOP_SENDING deadlock.** A stream that waits for outbound data has handed the receiver
  of its channel to the wait. STOP_SENDING then clears a receiver that is not there, and the
  wait goes on over an open channel. `stream` models who holds the receiver, `waiting` holds the
  step that ends the wait, `deadlock` tells the scenario.
* **The send buffer count.** A client cancels a stream while its bytes are in flight.
  `tx_buffered` scripts the run over a connected pair, and gives the verdict on what was
  observed.

`channel` states what is relied on of tokio's bounded channel, and `text` writes lines and
numbers.

The program under `app/` does what needs a runtime or a connection: it polls the waiting stream
(`stop-sending`, the default), or plays the run over quiche connections (`tx-buffered`, from a
directory with `examples/cert.crt` and `examples/cert.key`).
