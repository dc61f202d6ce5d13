use vstd::prelude::*;

verus! {

/// The failure taxonomy of the store.
///
/// `Io` carries a host-supplied detail string, since filesystem failures are
/// reported by the host process that performs the actual filesystem work.
#[derive(Debug)]
pub enum StoreError {
    /// The attachment identifier is empty.
    EmptyIdentifier,
    /// The attachment identifier holds a character outside `[A-Za-z0-9_-]`.
    InvalidIdentifierCharacter,
    /// The inline payload is not valid base64.
    MalformedPayload,
    /// The resolved path lies outside the managed directory.
    OutsideManagedDirectory,
    /// A required file (the read target, or the copy source) does not exist.
    SourceMissing,
    /// A filesystem operation failed; the detail comes from the host.
    Io(String),
}

/// The human-readable message for each error, as a spec-level sequence.
pub open spec fn error_message_spec(e: StoreError) -> Seq<char> {
    match e {
        StoreError::EmptyIdentifier => "Attachment ID cannot be empty."@,
        StoreError::InvalidIdentifierCharacter => "Attachment ID contains invalid characters."@,
        StoreError::MalformedPayload => "Failed to decode attachment base64."@,
        StoreError::OutsideManagedDirectory => (
            "Attachment path is outside managed attachment directory."@
        ),
        StoreError::SourceMissing => "Attachment file not found."@,
        StoreError::Io(detail) => detail@,
    }
}

impl StoreError {
    /// The human-readable message surfaced to the caller.
    pub fn message(&self) -> (r: String)
        ensures
            r@ == error_message_spec(*self),
    {
        match self {
            StoreError::EmptyIdentifier => String::from_str("Attachment ID cannot be empty."),
            StoreError::InvalidIdentifierCharacter => String::from_str(
                "Attachment ID contains invalid characters.",
            ),
            StoreError::MalformedPayload => String::from_str("Failed to decode attachment base64."),
            StoreError::OutsideManagedDirectory => String::from_str(
                "Attachment path is outside managed attachment directory.",
            ),
            StoreError::SourceMissing => String::from_str("Attachment file not found."),
            StoreError::Io(detail) => detail.clone(),
        }
    }
}

} // verus!
