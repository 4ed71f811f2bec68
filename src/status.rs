use vstd::prelude::*;
use vstd::string::*;

use crate::symbols::{UIColor, UISymbol};

verus! {

/// Semantic states reported on status lines, plus free text with a chosen glyph.
#[derive(Clone, Debug)]
pub enum Status {
    Applying,
    Added,
    Adding,
    Cached,
    Canceled,
    Canceling,
    Created,
    Creating,
    Deleting,
    Deleted,
    Demoted,
    Demoting,
    Determining,
    Downloading,
    DryRunDeleting,
    Encrypting,
    Encrypted,
    Executing,
    Found,
    Generated,
    Generating,
    Installed,
    Missing,
    Promoted,
    Promoting,
    Signed,
    Signing,
    Skipping,
    Uploaded,
    Uploading,
    Using,
    Verified,
    Verifying,
    Custom(UISymbol, String),
}

/// The glyph, label and color of a status.
pub open spec fn status_parts(s: Status) -> (UISymbol, Seq<char>, UIColor) {
    match s {
        Status::Applying => (UISymbol::UpArrow, "Applying"@, UIColor::Info),
        Status::Added => (UISymbol::UpArrow, "Added"@, UIColor::Info),
        Status::Adding => (UISymbol::FingerPoint, "Adding"@, UIColor::Info),
        Status::Cached => (UISymbol::BoxedCheckMark, "Cached"@, UIColor::Info),
        Status::Canceled => (UISymbol::CheckMark, "Canceled"@, UIColor::Info),
        Status::Canceling => (UISymbol::FingerPoint, "Canceling"@, UIColor::Info),
        Status::Created => (UISymbol::CheckMark, "Created"@, UIColor::Info),
        Status::Creating => (UISymbol::Omega, "Creating"@, UIColor::Info),
        Status::Deleting => (UISymbol::BoxedX, "Deleting"@, UIColor::Info),
        Status::Deleted => (UISymbol::CheckMark, "Deleted"@, UIColor::Info),
        Status::Demoted => (UISymbol::CheckMark, "Demoted"@, UIColor::Info),
        Status::Demoting => (UISymbol::RightArrow, "Demoting"@, UIColor::Info),
        Status::Determining => (UISymbol::Cloud, "Determining"@, UIColor::Info),
        Status::Downloading => (UISymbol::DownArrow, "Downloading"@, UIColor::Info),
        Status::DryRunDeleting => (UISymbol::BoxedX, "Would be deleted (Dry run)"@, UIColor::Critical),
        Status::Encrypting => (UISymbol::FingerPoint, "Encrypting"@, UIColor::Info),
        Status::Encrypted => (UISymbol::CheckMark, "Encrypted"@, UIColor::Info),
        Status::Executing => (UISymbol::FingerPoint, "Executing"@, UIColor::Info),
        Status::Found => (UISymbol::RightArrow, "Found"@, UIColor::Important),
        Status::Generated => (UISymbol::RightArrow, "Generated"@, UIColor::Important),
        Status::Generating => (UISymbol::FingerPoint, "Generating"@, UIColor::Info),
        Status::Installed => (UISymbol::CheckMark, "Installed"@, UIColor::Info),
        Status::Missing => (UISymbol::DottedTriangle, "Missing"@, UIColor::Critical),
        Status::Promoted => (UISymbol::CheckMark, "Promoted"@, UIColor::Info),
        Status::Promoting => (UISymbol::RightArrow, "Promoting"@, UIColor::Info),
        Status::Signed => (UISymbol::CheckMark, "Signed"@, UIColor::Important),
        Status::Signing => (UISymbol::FingerPoint, "Signing"@, UIColor::Important),
        Status::Skipping => (UISymbol::Elipses, "Skipping"@, UIColor::Info),
        Status::Uploaded => (UISymbol::CheckMark, "Uploaded"@, UIColor::Info),
        Status::Uploading => (UISymbol::UpArrow, "Uploading"@, UIColor::Info),
        Status::Using => (UISymbol::RightArrow, "Using"@, UIColor::Info),
        Status::Verified => (UISymbol::CheckMark, "Verified"@, UIColor::Info),
        Status::Verifying => (UISymbol::FingerPoint, "Verifying"@, UIColor::Info),
        Status::Custom(g, label) => (g, label@, UIColor::Info),
    }
}

impl Status {
    /// Resolves this status to its glyph, label and color.
    pub fn parts(&self) -> (r: (UISymbol, String, UIColor))
        ensures
            (r.0, r.1@, r.2) == status_parts(*self),
    {
        match self {
            Status::Applying => (UISymbol::UpArrow, String::from_str("Applying"), UIColor::Info),
            Status::Added => (UISymbol::UpArrow, String::from_str("Added"), UIColor::Info),
            Status::Adding => (UISymbol::FingerPoint, String::from_str("Adding"), UIColor::Info),
            Status::Cached => (UISymbol::BoxedCheckMark, String::from_str("Cached"), UIColor::Info),
            Status::Canceled => (UISymbol::CheckMark, String::from_str("Canceled"), UIColor::Info),
            Status::Canceling => (UISymbol::FingerPoint, String::from_str("Canceling"), UIColor::Info),
            Status::Created => (UISymbol::CheckMark, String::from_str("Created"), UIColor::Info),
            Status::Creating => (UISymbol::Omega, String::from_str("Creating"), UIColor::Info),
            Status::Deleting => (UISymbol::BoxedX, String::from_str("Deleting"), UIColor::Info),
            Status::Deleted => (UISymbol::CheckMark, String::from_str("Deleted"), UIColor::Info),
            Status::Demoted => (UISymbol::CheckMark, String::from_str("Demoted"), UIColor::Info),
            Status::Demoting => (UISymbol::RightArrow, String::from_str("Demoting"), UIColor::Info),
            Status::Determining => (UISymbol::Cloud, String::from_str("Determining"), UIColor::Info),
            Status::Downloading => (UISymbol::DownArrow, String::from_str("Downloading"), UIColor::Info),
            Status::DryRunDeleting => (UISymbol::BoxedX, String::from_str("Would be deleted (Dry run)"), UIColor::Critical),
            Status::Encrypting => (UISymbol::FingerPoint, String::from_str("Encrypting"), UIColor::Info),
            Status::Encrypted => (UISymbol::CheckMark, String::from_str("Encrypted"), UIColor::Info),
            Status::Executing => (UISymbol::FingerPoint, String::from_str("Executing"), UIColor::Info),
            Status::Found => (UISymbol::RightArrow, String::from_str("Found"), UIColor::Important),
            Status::Generated => (UISymbol::RightArrow, String::from_str("Generated"), UIColor::Important),
            Status::Generating => (UISymbol::FingerPoint, String::from_str("Generating"), UIColor::Info),
            Status::Installed => (UISymbol::CheckMark, String::from_str("Installed"), UIColor::Info),
            Status::Missing => (UISymbol::DottedTriangle, String::from_str("Missing"), UIColor::Critical),
            Status::Promoted => (UISymbol::CheckMark, String::from_str("Promoted"), UIColor::Info),
            Status::Promoting => (UISymbol::RightArrow, String::from_str("Promoting"), UIColor::Info),
            Status::Signed => (UISymbol::CheckMark, String::from_str("Signed"), UIColor::Important),
            Status::Signing => (UISymbol::FingerPoint, String::from_str("Signing"), UIColor::Important),
            Status::Skipping => (UISymbol::Elipses, String::from_str("Skipping"), UIColor::Info),
            Status::Uploaded => (UISymbol::CheckMark, String::from_str("Uploaded"), UIColor::Info),
            Status::Uploading => (UISymbol::UpArrow, String::from_str("Uploading"), UIColor::Info),
            Status::Using => (UISymbol::RightArrow, String::from_str("Using"), UIColor::Info),
            Status::Verified => (UISymbol::CheckMark, String::from_str("Verified"), UIColor::Info),
            Status::Verifying => (UISymbol::FingerPoint, String::from_str("Verifying"), UIColor::Info),
            Status::Custom(g, label) => (*g, label.clone(), UIColor::Info),
        }
    }
}

/// A custom status passes its glyph and label through, in the info color.
pub proof fn custom_status_parts(g: UISymbol, label: String)
    ensures
        status_parts(Status::Custom(g, label)) == (g, label@, UIColor::Info),
{
}

} // verus!
