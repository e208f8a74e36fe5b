# strellerminds

Verified logic of an on-chain education platform, written in Verus: every function
in `src/` carries a contract that Verus proves.

## Layout

- `src/certificate/` — certificates: minting (single and batch), revocation, transfer,
  metadata history, expiry and renewal, multi-signature issuance, course
  prerequisites with learning paths, and checks of mint parameters.
- `src/analytics/` — learning analytics: progress reports, daily, weekly and monthly
  figures, leaderboards, filtered session queries, a compact event recorder and
  learning insights.
- `src/community/` — forum, mentorship, knowledge base, community events, moderation,
  governance and member reputation.
- `src/common/` — identifiers, a finite map kept as a vector (`Table`) and list helpers.
- `*/laws.rs` — properties that span several functions, stated and proved as proof
  functions.
- `tests/` — executable tests of the library.

## Model

The state of each contract is a plain struct (`Certificate`, `Analytics`,
`Community`) whose tables are viewed as `Map`s. What a ledger host would supply is
passed in as a value: the ledger time (`now`), the access-control registry's answer
on a caller's right (`permitted`), the shared field validator's answers on each field
of a certificate, and the learner count and average packed by the host. Publishing
events to the ledger is left to the host.
