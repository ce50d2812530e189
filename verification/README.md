# hollowcheck

A linter that holds a code base to a contract and flags hollow code: stub
functions, hollow TODOs, mock data, forbidden patterns, missing files,
symbols and tests, functions below a required complexity, god objects and
imports of packages that no manifest declares.

The library in `src/` is written in Verus. Every function there carries a
contract that Verus proves:

- `analysis/`: syntax trees and query matches as plain values (`syntax`);
  language analyzers (`languages`) that read declarations, imports, bodies
  and control flow off them; stub detection; a cache of file facts.
- `parser/`: symbol and complexity extraction per grammar, and the registry
  of parsers by file extension.
- `detect/`: the detectors, the manifests (Go, Python, Home Assistant), the
  suppression comments, and the runner that puts a run together.
- `registry/`: package-registry names, URLs and the result cache.
- `contract.rs`, `cli.rs`, `report.rs`: the contract, the command-line
  decisions and the rule catalogue of the reports.

Calls into tree-sitter, regex, globset, directories and parts of std go
through small trusted wrappers whose contracts name or describe what the
call returns.

`app/` holds the program around the library: argument parsing, reading
files and manifests, and writing the pretty, JSON and SARIF reports.
`tests/` runs the library on concrete inputs.
