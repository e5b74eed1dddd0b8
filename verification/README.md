# costctl-core

Forecast the monthly cost delta of a Terraform change before it is applied: read a
`terraform show -json` plan, price each resource change against a price catalog, and report
the signed monthly difference, keeping usage-based rates and anything that cannot be priced
apart from the net.

Layout:

- `src/` — the library, verified with Verus: plan reading (`adapters::terraform`), the
  resource-change model (`ir`, `json`), price lookup (`pricing`, `catalog`), the cost engine
  (`cost`), the text report and the JSON report document (`report`), and proved properties
  of the whole (`laws`). Money is held as integer millionths of a dollar.
- `app/` — the `costctl` command line: argument handling, reading the plan (file, stdin or
  `terraform show -json`), JSON text in and out through serde_json, exit codes
  (`0` ok, `1` error, `2` over budget).
- `tests/` — tests of the library.
