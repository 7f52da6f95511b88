pub mod editor;
pub mod engine;
pub mod keybindings;
pub mod line_buffer;
pub mod painter;
pub mod text;
pub mod validator;
pub mod width;

pub use editor::EditCommand;
pub use editor::Editor;
pub use engine::Event;
pub use engine::EventOutcome;
pub use engine::LineEditor;
pub use engine::Signal;
pub use keybindings::default_emacs_keybindings;
pub use keybindings::Binding;
pub use keybindings::EditMode;
pub use keybindings::KeyCode;
pub use keybindings::KeyModifiers;
pub use keybindings::Keybindings;
pub use line_buffer::LineBuffer;
pub use painter::DrawOp;
pub use painter::Painter;
pub use painter::PromptCoordinates;
pub use painter::PromptLines;
pub use validator::DefaultValidator;
pub use validator::ValidationResult;
pub use validator::Validator;
pub use width::estimated_buffer_rows;
