# Navin shipment

A shipment contract with escrowed payment, written and proved in Verus.

A company hands in shipments, a carrier reports where they are, a receiver confirms their
delivery, and an administrator manages roles, configuration and upgrades. Payment is held in
escrow by the contract until the shipment has come to its end.

- `src/` is the library. `model` says what each call does to what the contract keeps and when it
  is refused; `contract`, `escrow`, `consistency` and `diagnostics` hold the calls, with contracts
  that speak of the model; `calls` and `laws` say what holds of all calls taken together.
- `tests/` runs the library.
- `app/` is the Soroban side: token contracts, and the transfers that the library asks for.

An escrow payment can be made in one call, with a token that the library knows, or in two: the
`begin_..` call returns the transfer to make, and `finish_payment` is told whether it was made.
Nothing of a payment that was not made stays behind.
