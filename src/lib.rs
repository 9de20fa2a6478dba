//! Line, word, character and byte counting over a text buffer, and the
//! policy that picks which buffer to count.
pub mod counts;
pub mod report;
pub mod resolve;

pub use counts::{get_byte_count, get_char_count, get_line_count, get_word_count};
pub use report::render_report;
pub use resolve::{get_buffer_from_args, join_stdin_lines, RWCArgs, ResolveError};
