# sentinel

The core of the Sentinel privacy browser as a library verified with Verus:
navigation and `sentinel://` routing, the command loop's step, the tab
strip and its history, the
internal pages, search result ranking and parsing, the ad/tracker shield,
the network layer's decisions (protocol switching, bridges, DNS, V2Ray, SOCKS
parsing), local governance voting with its timelock and Poseidon voting identities, encrypted storage and
the software vault.

- `src/` — the verified library. Each module states its behaviour in
  `requires`/`ensures` over mathematical models (`Seq`, `Map`, views), and
  the properties that span several operations are public proof functions
  (`lemma_*`). Calls into outside crates (AES-GCM, Argon2, ML-KEM, regex,
  HTML entity decoding and extraction, percent-encoding, URL parsing, hex,
  JSON, BLAKE3, Poseidon, case mapping, random bytes, the clock) sit behind small trusted wrappers whose contracts say
  what the crates' sources show.
- `tests/` — tests of the library on concrete values.
- `app/` — a headless program around the library: the `sentinel://` page
  loop over a session-only store, file and environment
  access, the settings file (serde), the software vault on disk, pluggable
  transport lookup, the v2ray process, connectivity probes, shard files,
  the zero-knowledge voting circuit (arkworks) and the floating-point chrome
  geometry.
