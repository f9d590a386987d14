# escrow

A Soroban escrow contract whose logic is verified with Verus.

A buyer creates an escrow for an amount of a token, funds it, and confirms
delivery to release the funds to the seller. With an arbitrator set, the buyer
or the seller may dispute a funded escrow, and the arbitrator releases the funds
to the seller or refunds the buyer. Once the deadline has passed, anyone can
have a funded escrow refunded to the buyer.

```
INIT -> FUNDED -> COMPLETED
           |  \-> EXPIRED   (after the deadline, via refund_expired)
           v
        DISPUTED -> COMPLETED (release to seller)
                 -> REFUNDED  (refund buyer)
```

## Layout

- `src/` — the verified library
  - `contract.rs` — the operations (`EscrowContract`) and what each does to
    storage and events
  - `lifecycle.rs` — the state machine: decisions, who authorizes, how funds
    move, and the host requests (authorizations, transfers) each operation makes
  - `laws.rs` — properties proved across operations
  - `storage.rs`, `events.rs`, `host.rs` — the host calls, each with the
    contract it is trusted to meet
  - `types.rs`, `errors.rs` — the escrow record, its states, the errors
- `app/` — the contract entry points and the contract types with the host's
  derives, handing over to the library
- `tests/` — tests that run the library on a test host

Verification: `verus` on `src/lib.rs`. The host's storage, the contract's
event log and the requests the contract makes of the host (authorizations and
token transfers, in order) are modelled as maps and sequences read off the
environment handle. Every operation's contract says exactly which records it
writes, which events it publishes, whose authorization it asks for and which
transfers (token, payer, payee, amount) it requests. What the host makes of a
request is not modelled: an authorization that is not granted, or a transfer
the token refuses (a short balance, a failing token), aborts the invocation,
and the host rolls back everything it did. The ledger time is read from the
host; contracts speak of "the time read" without fixing it.
