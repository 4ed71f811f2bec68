// Console user-experience layer: glyph themes, a status catalog, output
// streams that record styled writes, interactive prompts over buffered
// input, a byte-counting progress tracker and a word-wrap formatter.
pub mod error;
pub mod progress;
pub mod status;
pub mod stream;
pub mod symbols;
pub mod text;
pub mod ui;
pub mod wrap;
