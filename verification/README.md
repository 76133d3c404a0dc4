# marketplace_v2

An ERC-721 marketplace that runs as a Cartesi rollup application, with its
decisions verified by Verus.

- `src/` is the verified library:
  - `storage`: the marketplace state (portals, tokens, price, the listed
    tokens and their owners), with its invariant: no token is listed twice
    and every listed token has a recorded owner.
  - `handlers`: the answer to each rollup input: routing of advance requests,
    ERC-20 and ERC-721 deposits, the purchase call and inspect requests.
  - `ledger`: scripts of asset-ledger calls and the state machine that walks
    them, one ledger reply at a time.
  - `abi`, `hexcodec`, `text`: the token-id argument, hexadecimal payloads
    and case folding.
- `app/` is the program around it: the rollup server loop, JSON requests,
  the CMA parser and ledger, and the HTTP calls that publish notices,
  reports and vouchers.
