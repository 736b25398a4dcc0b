# iban_validation_rs

Validation of IBANs in electronic format, with the bank and branch identifiers
that the SWIFT IBAN registry defines for each country, written in Verus: every
function of the library carries a contract that the verifier proves, except
six wrappers of `std` string functions whose contracts are trusted:
`usize::to_string`, `str::trim`, `str::contains`, `str::replace`,
`str::strip_prefix` and `std::str::from_utf8` (in `src/strings.rs`).

## Layout

- `src/` — the verified library.
  - `registry.rs`: the country definitions (registry and opt-in non-registry
    countries) and the facts about them.
  - `letters.rs`, `mod97.rs`: character classes and the MOD 97-10 checksum.
  - `validation.rs`: validation in electronic and print format, numeric
    positions, and the `Iban` type with its identifiers.
  - `cli.rs`: the command line front end as functions on plain values
    (argument parsing, normalization, rendering, the read loop).
  - `c_api.rs`: the status codes and positions the C interface reports.
  - `records.rs`: owned records for script bindings and the data-frame plugin.
  - `properties.rs`, `cli_properties.rs`: properties proved for all inputs.
  - `strings.rs`, `ascii.rs`: string facts, and the specifications of the few
    `std` string functions the library calls.
- `tests/` — tests on concrete values.
- `app/` — the program (`main.rs`) and the C, JavaScript and Python bindings,
  which read and write memory and hand every decision to the library.
