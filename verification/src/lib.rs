//! Selecting the trailing window of a file: how a count given by the user,
//! together with the size of a file, decides where printing starts, and what
//! is printed of each file of an invocation.
//!
//! The library reads no file and prints nothing. It is handed the content of
//! each file as bytes and gives back the bytes to print.

pub mod config;
pub mod decimal;
pub mod index;
pub mod run;
pub mod scan;
pub mod take;

pub use config::{get_args, Config, ConfigError};
pub use decimal::parse_u64;
pub use index::get_start_index;
pub use run::{run, tail_file, FileError, FileInput, FileReport};
pub use scan::{count_lines_bytes, print_bytes, print_lines};
pub use take::{
    parse_num,
    parse_num_without_regex_book_version,
    parse_num_without_regex_my_version,
    InvalidCount,
    TakeValue,
};
