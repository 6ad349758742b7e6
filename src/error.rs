use vstd::prelude::*;

verus! {

/// Failures reported by the library and by the runtime built on it.
///
/// Outside failures (file access, configuration parsing) arrive here as
/// their rendered message.
#[derive(Debug, Clone, PartialEq, Eq)]
pub enum Error {
    Io(String),
    TomlParse(String),
    Platform(String),
    ChannelSend,
}

} // verus!
