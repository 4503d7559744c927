# jmes

Verified core of the JMES governance contracts for CosmWasm chains.

The library (`src/`) holds the decisions of each contract as functions over
plain values, each with a contract that Verus proves:

- `governance`: the posting/voting cycle, posting proposals (text, feature
  requests, improvements, core slot and revoke proposals), voting, concluding
  with winning grants, and assigning, resigning and revoking core slots;
- `identityservice`: user and DAO names and the DAO setup sequence;
- `distribution`: grants that vest linearly and the payouts claimed from them;
- `dao_members`: a DAO's member list, its total weight, and the rules a DAO
  holding a core slot must keep;
- `artist_curator` and `art_dealer`: curator approvals and minting of artist
  and art tokens;
- `math` and `shared`: decimals, thresholds, timestamps and messages shared by
  the contracts.

Each module's `laws.rs` states properties that span several requests (votes
count once, a proposal concludes once, no DAO holds two core slots, payouts
never exceed a grant, member totals stay the sum of the weights, ...).

`app/` is the CosmWasm side: entry points, storage, queries to other
contracts and message encoding, calling the library for every decision.
`tests/` runs the library on concrete scenarios.

The artist curator drives two token contracts built from the project's own
`artist_nft` crate, whose source is not part of this repository. `app/`
therefore encodes the token setup and mint messages with `cw721-base`
(`InstantiateMsg`, `ExecuteMsg::Mint`), the standard contract that
`artist_nft` builds on, and lists tokens with `cw721`'s `Tokens` query.
