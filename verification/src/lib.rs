//! Strings of the extended ASCII page: text in which every character is one
//! byte, with the conversions to and from native text, and buffered reading
//! and writing of such strings line by line.

pub mod ascii_channel;
pub mod ascii_common;
pub mod ascii_consts;
pub mod ascii_group;
pub mod ascii_stream;
pub mod ascii_string;
pub mod ascii_string_ops;
pub mod ascii_string_order;
pub mod ascii_traits;
pub mod ascii_translators;
pub mod prelude;
