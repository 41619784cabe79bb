//! Helpers around extraction: short numbers for reports, errors with the
//! file they belong to, and the names of the sample files.

pub mod file_error;
pub mod handle_errors;
pub mod human_gnu_format;
pub mod sample_writer;
