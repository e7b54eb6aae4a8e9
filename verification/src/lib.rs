pub mod buffer;
pub mod content;
pub mod document;
pub mod engine;
pub mod gap_buffer;
pub mod line;

pub use buffer::{delete_char, delete_line, put_char, seek_to_col, seek_to_line, Buffer};
pub use content::GROWTH_INCREMENT;
pub use engine::{default_configuration, Action, Configuration, Engine, Mode, Selection};
pub use gap_buffer::{GapBuffer, LineGapBuffer};
pub use line::LineBuffer;
