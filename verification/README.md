# allow_report

Verified evaluators for the release-evidence records of cargo-allow: the
final registry preflight, tag transaction, publication and GitHub release
journals, checkpoints, authorization and custody records, candidate and
install receipts, minimum-version proofs, the frozen-subject lock, and the
release closeout and readiness decisions.

- `src/` is the library, written in Verus. Every public function states in
  its contract what it returns or changes, over spec functions of plain
  values, and the `lemma_*` proof functions state the laws that hold across
  calls (what an append keeps, which verdicts a record can reach, what a
  refusal means). SHA-256 comes from the `sha2` crate through
  `digest::sha256_bytes`, whose contract is believed rather than proved;
  `text::debug_string`, `text::push_char` and the JSON value comparison
  behind `release_authorization_custody::verify_custody_readback_v1` are the
  only other such functions.
- `app/` holds what the library cannot: serde copies of its records
  (`app/wire.rs`) with conversions both ways, the JSON renderers, and the
  parsing of delivered checkpoint bytes into checkpoint records.
- `tests/` exercises the library on concrete records.
