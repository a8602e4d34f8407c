# FluxPay escrow

A verified escrow for stablecoin payments on Solana. An escrow holds one
payment until it is released to the merchant by the admin, or refunded to the
customer by anyone once the payment window and the grace period have passed.

| Instruction | Caller | When |
|---|---|---|
| `initialize_config` | anyone | once |
| `create_escrow` | anyone | once per payment; after a cancellation again, if its vault was closed |
| `deposit`, `complete_deposit` | anyone, who becomes the depositor | while Pending |
| `release` | admin | Funded, within window + grace |
| `refund_after_expiry` | anyone | Funded, after window + grace |
| `cancel_pending` | merchant | while Pending |

The setup is meant for the deployer and the opening of escrows for a backend;
neither is tested, so the setup belongs right after the deployment.

Anyone can send tokens to a vault. They block nothing: a payout still moves the
escrow's amount, and only the closing of a vault that is not empty is left out.

## Layout

- `src/` is the library, proved with Verus: account checks, state changes, and
  the accounts and token movements that each instruction asks for.
  `src/lifecycle.rs` states what follows for the whole life of an escrow:
  conservation of funds, one accepted stablecoin, locked destinations, immutable
  terms, no double payout, one escrow per payment, no shared balance, setup only
  once.
- `app/` is the Anchor program: it loads accounts, calls the library, makes the
  calls into the system and token programs and stores the result.
- `tests/` runs the library against the real address derivation.

A deposit has two halves, because the clock is read after the transfer:
`deposit` admits it and names the transfer, `complete_deposit` records it.

Every instruction but the setup is given the config, which names the accepted
stablecoin. The vault of an escrow is its associated token account for that
stablecoin, and no other vault is paid into or out of.

Taken on trust are the calls in `src/address.rs` and `src/clock.rs` that are
marked `external_body`: the derivation of program addresses and of associated
token accounts, and the reading of the clock.
