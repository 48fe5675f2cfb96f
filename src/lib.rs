//! Interactive terminal prompts: the decisions behind confirmation, line,
//! password and file-browser dialogs, with the path escaping and completion
//! they rely on. Terminal and filesystem access stay with the caller.

pub mod text;
pub mod tools;
pub mod completers;
pub mod render;
pub mod prompts;
