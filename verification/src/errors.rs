use vstd::prelude::*;

verus! {

/// Everything that can go wrong in one run.  Resolution, authentication,
/// date and fetch failures are terminal at the command-line boundary;
/// a render failure is discarded per appointment so the rest still prints.
/// Variants that arise outside the library (file access, the remote
/// service) carry the collaborator's message.
#[derive(Debug, Clone, PartialEq, Eq)]
pub enum CliError {
    /// The config file could not be read.
    ConfigRead(String),
    /// The config file's contents could not be parsed.
    ConfigParse(String),
    /// The rewritten config could not be persisted after a bootstrap.
    ConfigWrite(String),
    /// A config was loaded but holds neither an access token nor an auth code.
    MissingCredential,
    /// An explicit auth code or access token was given without a school.
    MissingSchool,
    /// No credential source was supplied at all.
    InsufficientArguments,
    /// The auth-code → access-token exchange failed.
    Authentication(String),
    /// A day-offset argument is not a well-formed integer.
    DateParse,
    /// The appointment fetch failed.
    Fetch(String),
    /// A color-set or write failed while printing one appointment.
    Render(String),
}

} // verus!
