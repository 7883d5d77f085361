# acdi — automated cryptography discovery and inventory

`acdi` finds the cryptography in a code base, its certificates and its TLS
endpoints, classifies every finding by its exposure to quantum attacks
(quantum safety, harvest-now-decrypt-later risk, NIST security level), and
reports it as a CycloneDX 1.7 CBOM, SARIF 2.1.0, CSV, an HTML migration
report or a terminal table.

The detection, classification and reporting logic is a Verus library whose
functions carry `requires` / `ensures` contracts proved by Verus; the
command-line tool around it does the file, network and terminal work.

## Layout

- `src/` — the verified library.
  - `model`, `catalog`, `table`, `text`, `order`, `paths` — the data model,
    the algorithm catalog and classification, and the text and lookup
    helpers the rest is specified with.
  - `certs`, `keys` — X.509 certificates and PEM/DER keys.
  - `source`, `config`, `manifest`, `binary`, `jar`, `symbols`, `patterns`,
    `detect` — the per-format detectors and the dispatch by file name and
    extension.
  - `ignore` — `.acdignore` rules and their glob matching.
  - `scan`, `console`, `cli` — the decisions of a scan run (suppression,
    ordering, `--fail-on`, watch-mode change reports), the console table and
    the command-line model.
  - `cbom`, `sarif`, `csv`, `html`, `diff`, `diff_render` — the reports and
    the CBOM diff.
  - `probe` — TLS targets, handshake results and the decisions of the PQC
    hybrid probe.
- `tests/` — tests of the library on concrete inputs.
- `app/` — the `acdi` binary: argument parsing, directory walking, file and
  network I/O, JSON (de)serialization and terminal output.

Contracts are stated over views (`Seq`, `Option` of `Seq<char>`, ...) of the
library's types. Calls into outside crates (`regex`, `x509-parser`, `zip`,
`goblin`, `uuid`, `chrono`) sit behind small trusted wrappers whose contracts
name the result as a function of the arguments.
