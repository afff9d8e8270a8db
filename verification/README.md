# tenant_tail_core

A verify-only core for a software factory's run-side paperwork, proved with
Verus. It re-checks a governance certificate with no trust in its producer and
checks claim citations against an extraction corpus.

## Layout

- `src/` — the verified library.
  - `certificate.rs`: the certificate model, the self-hash, the Ed25519 engine
    signature, stage-artifact re-hashing with path confinement, and
    `verify_certificate`.
  - `jws.rs`: the platform keyset and the offline check of a countersign's
    compact JWS (EdDSA over `header.payload`, its header rules and claims).
  - `platform.rs`: full verification with the platform seal verdict, and its
    laws (fail closed by default; the opt-out demotes only the seal finding;
    a checked seal must verify and bind this certificate).
  - `bindings.rs`, `posture.rs`: the corpus, SBOM and agentic-posture
    bindings, the governance-envelope shape check, purl matching and the BOM
    watchlist walk.
  - `inter_stage_manifest.rs`: signed inter-stage manifests and key chains.
  - `canonical.rs`, `json.rs`: the canonical JSON form the hashes and
    signatures are computed over.
  - `sorted_map.rs`: maps from text keys kept in ascending key order, each
    key once (a type invariant), as the JSON form lists their members.
  - `knowledge.rs`, `corpus.rs`, `citation.rs`: citations, the corpus, quote
    hashing, whole-word entity search, and the round-trip law between them.
  - `source_path.rs`: the component-wise order of source paths that search
    results are sorted by.
  - `report.rs`: the certificate verb from verification to what it prints
    and the exit code it returns.
  - `validation.rs`: warn-only resolution of a certificate's spec id against
    a loaded spec registry.
  - `crypto.rs`, `digest.rs`, `text.rs`: trusted wrappers over `base64`,
    `ed25519-dalek` and `sha2`, and string building blocks.
- `tests/` — tests run against the compiled library.
- `app/` — the `tenant-tail verify-certificate` command: argument parsing,
  file reading, and the JSON wire forms of the certificate and the platform
  keyset.
