# crowdfund

Verified initialization rules of a crowdfunding contract on Soroban.

- `src/` (Verus): error codes and their messages (`error`), single-field
  parameter checks (`validation`), the storage slots and a map model of the
  storage (`storage`), the initialization decision and its laws
  (`initialize`), and the Soroban values carried through opaquely (`host`).
- `app/`: the contract-host side: reads the guard and the ledger time,
  performs the authorization, storage writes and event that the library's
  decision names, and holds the storable copies of the library's types.
