use vstd::prelude::*;
use vstd::string::StringExecFns;

verus! {

/// The ways in which a set of preferences can be malformed. Each is found
/// when the preferences are frozen, never later.
#[derive(Clone, Copy, Debug, PartialEq, Eq, Structural)]
pub enum ConfigurationError {
    /// The lowest accepted protocol version lies above the highest.
    MinExceedsMax,
    /// A list that must name at least one entry names none.
    EmptyList,
    /// The pseudo-header order is not an arrangement of the four pseudo-headers.
    InvalidPseudoOrder,
    /// A SETTINGS field is named more than once.
    DuplicateSetting,
    /// Two PRIORITY descriptors address the same stream.
    DuplicateStreamId,
}

impl ConfigurationError {
    /// The words in which the error is reported.
    pub open spec fn text(self) -> Seq<char> {
        match self {
            ConfigurationError::MinExceedsMax => "min exceeds max"@,
            ConfigurationError::EmptyList => "list is empty"@,
            ConfigurationError::InvalidPseudoOrder => "pseudo-header order is incomplete or repeats an entry"@,
            ConfigurationError::DuplicateSetting => "settings order repeats an entry"@,
            ConfigurationError::DuplicateStreamId => "priority frames repeat a stream"@,
        }
    }

    /// The words in which the error is reported.
    pub fn message(&self) -> (words: String)
        ensures
            words@ == self.text(),
    {
        match self {
            ConfigurationError::MinExceedsMax => String::from_str("min exceeds max"),
            ConfigurationError::EmptyList => String::from_str("list is empty"),
            ConfigurationError::InvalidPseudoOrder => String::from_str(
                "pseudo-header order is incomplete or repeats an entry",
            ),
            ConfigurationError::DuplicateSetting => String::from_str(
                "settings order repeats an entry",
            ),
            ConfigurationError::DuplicateStreamId => String::from_str(
                "priority frames repeat a stream",
            ),
        }
    }
}

/// Everything that can go wrong while a profile or a trust store is prepared.
#[derive(Clone, Debug, PartialEq, Eq)]
pub enum Error {
    /// The preferences themselves are malformed.
    Configuration(ConfigurationError),
    /// The TLS or HTTP/2 engine refused a parameter or a store; the text is
    /// the engine's own.
    Engine(String),
    /// An owned store was applied after it had already been handed over.
    Ownership,
}

impl Error {
    /// The words in which the error is reported. What the engine said is
    /// reported as the engine said it.
    pub open spec fn text(self) -> Seq<char> {
        match self {
            Error::Configuration(e) => e.text(),
            Error::Engine(diagnostic) => diagnostic@,
            Error::Ownership => "owned store was already applied"@,
        }
    }

    /// The words in which the error is reported.
    pub fn message(&self) -> (words: String)
        ensures
            words@ == self.text(),
    {
        match self {
            Error::Configuration(e) => e.message(),
            Error::Engine(diagnostic) => diagnostic.clone(),
            Error::Ownership => String::from_str("owned store was already applied"),
        }
    }
}

} // verus!
