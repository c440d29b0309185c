# damm-v2-fee-routing (verified core)

The decisions of the permissionless fee router for Meteora DAMM v2
honorary positions, with machine-checked proofs:

- `src/instructions/initialize_honorary_position.rs`: reading the cp-amm
  pool account, the checks of `initialize_honorary_position`, the
  `create_position` instruction, the recorded `VaultConfig` and its event.
- `src/instructions/claim_fee.rs`, `src/instructions/close_position.rs`:
  the checks and the exact `claim_position_fee` / `close_position`
  instructions.
- `src/instructions/route_fees.rs`: the investor/creator split of claimed
  fees and the token transfers that pay it out.
- `src/pda.rs`: signer seeds and the cp-amm event authority PDA.
- `src/laws.rs`: properties that span functions (conservation of the routed
  balance, rounding in the creator's favour, monotonicity in the fee share
  and in the balance, no routing of the same fees twice, what an accepted
  initialization guarantees for later routing).

`app/` is the Anchor program: account validation through Anchor's derives,
the cross-program invocations, the clock, account writes and events. It
hands account addresses and data to the library and carries out what the
library decides.
