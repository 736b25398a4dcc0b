//! Validation of IBANs in electronic format, with the bank and branch
//! identifiers that the IBAN registry defines for each country.
//!
//! The input and output of the library are in the electronic format; the
//! print format (groups separated by spaces) is only accepted by
//! [`validate_iban_str_print`]. BBAN validation checks the length, the
//! character set of every position and the place of the bank and branch
//! identifiers; further country-specific checks are not performed.
//!
//! Functions such as [`validate_iban_str`] and [`Iban::new`] accept the
//! countries of the SWIFT IBAN registry only. The `_with` variants
//! ([`validate_iban_str_with`], [`validate_iban_str_print_with`],
//! [`Iban::new_with`]) take a [`CountrySet`]; with
//! [`CountrySet::WithNonRegistry`] they also accept 22 IBAN-shaped account
//! numbers of countries that are not published in the registry.
//!
//! Besides the validation itself, [`cli`] holds everything the command line
//! front end decides (argument parsing, line normalization, rendering and the
//! read loop), [`c_api`] what the C interface reports, and [`records`] the
//! owned values handed to script languages and the data-frame plugin. The
//! properties that hold for every input are proved in [`properties`],
//! [`cli_properties`] and [`registry`], and [`structure`] proves that every
//! country definition follows the structure the registry publishes for it.
pub mod ascii;
pub mod c_api;
pub mod cli;
pub mod cli_properties;
pub mod letters;
pub mod mod97;
pub mod properties;
pub mod records;
pub mod registry;
pub mod strings;
pub mod structure;
pub mod validation;

pub use registry::{
    get_iban_fields, get_iban_fields_with, is_non_registry_country, CountrySet, IbanFields,
    IBAN_MAX_LEN, IBAN_MIN_LEN, NON_REGISTRY_COUNTRIES,
};
pub use validation::{
    get_source_file, get_version, validate_iban_get_numeric, validate_iban_get_numeric_with,
    validate_iban_str, validate_iban_str_print, validate_iban_str_print_with,
    validate_iban_str_with, validate_iban_with_data, validate_iban_with_data_with, Iban,
    ValidationError,
};
