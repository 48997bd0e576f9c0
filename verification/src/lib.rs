//! A configurable, colorized console logging library.
//!
//! A [`Logger`] holds a module name, a severity floor, a line template and a
//! color preference. Each emission renders one line through the template:
//! literal text, `%Name%` variables and `%style:...%` directives that become
//! ANSI escape sequences.

pub mod text;
pub mod types;
pub mod variables;
pub mod style;
pub mod template;
pub mod clock;
pub mod logger;
pub mod laws;

pub use logger::Logger;
pub use types::Color;
pub use types::LogLevel;
pub use variables::Variables;
