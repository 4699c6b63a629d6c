//! Reading a chat message as a command: its words, the declared arguments of
//! a command and their values.

pub mod argument;
pub mod command;
pub mod textcommand;

pub use argument::Argument;
pub use argument::ArgumentMetadata;
pub use argument::ArgumentWithData;
pub use argument::ParseError;
pub use command::Command;
pub use command::CommandWithData;
pub use command::CommandFn;
pub use textcommand::get_message_command;
pub use textcommand::TextCommand;
