//! The closed failure taxonomy that every component reports through.

use vstd::prelude::*;

verus! {

/// One invocation ends either in success or in exactly one of these
/// failure kinds, each carrying what its rendered message needs.
#[derive(Clone, PartialEq, Eq, Debug)]
pub enum Error {
    /// A storage access failure; `not_found` marks the expected
    /// first-run condition of a missing config file, which callers
    /// must be able to branch on.
    Io { not_found: bool, message: String },
    /// A failure surfaced by the speaker capability.
    Device { message: String },
    /// The configuration record could not be rendered to text.
    Serialization,
    /// The configuration file text does not hold a well-formed record.
    Deserialization,
    /// The supplied argument matched neither command registry.
    UnknownCommand(String),
    /// No argument was supplied.
    MissingCommand,
    /// The device reported a playback state outside the recognized set.
    UnknownTransportState,
}

impl Error {
    /// The human-readable message for this failure.
    pub open spec fn message_spec(self) -> Seq<char> {
        match self {
            Error::Io { not_found, message } => message@,
            Error::Device { message } => message@,
            Error::Serialization => "Could not serialize the config"@,
            Error::Deserialization => "Malformed config file"@,
            Error::UnknownCommand(name) => "Unknown command \""@ + name@
                + "\", run \"ssc help\" to see available commands"@,
            Error::MissingCommand => "Missing command, run \"ssc help\" to see available commands"@,
            Error::UnknownTransportState => "Unknown transport state"@,
        }
    }

    /// Renders the message this failure is reported with.
    pub fn render(&self) -> (r: String)
        ensures
            r@ == self.message_spec(),
    {
        match self {
            Error::Io { not_found: _, message } => message.clone(),
            Error::Device { message } => message.clone(),
            Error::Serialization => String::from_str("Could not serialize the config"),
            Error::Deserialization => String::from_str("Malformed config file"),
            Error::UnknownCommand(name) => {
                let mut s = String::from_str("Unknown command \"");
                s.append(name.as_str());
                s.append("\", run \"ssc help\" to see available commands");
                s
            },
            Error::MissingCommand => String::from_str(
                "Missing command, run \"ssc help\" to see available commands",
            ),
            Error::UnknownTransportState => String::from_str("Unknown transport state"),
        }
    }
}

} // verus!
