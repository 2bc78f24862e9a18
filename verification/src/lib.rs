pub mod buffer;
pub mod cursor;
pub mod editor;
pub mod error;
pub mod key;
pub mod position;
pub mod render;
pub mod selection;
pub mod terminal;
pub mod viewport;

pub use buffer::TextBuffer;
pub use cursor::EditCommand;
pub use editor::Editor;
pub use error::EditError;
pub use key::KeyInput;
pub use position::Position;
pub use position::Size;
pub use render::Frame;
pub use render::ScreenRow;
pub use terminal::Terminal;
