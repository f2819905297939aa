//! Application manifests: what makes a manifest acceptable.
use vstd::prelude::*;

use crate::text::{spec_trim, trim_string};

verus! {

/// Why a manifest is refused.
#[derive(Debug, Clone, Copy, PartialEq, Eq, Structural)]
pub enum AppManifestError {
    /// The display name is blank.
    EmptyDisplayName,
    /// The command is blank.
    EmptyCommand,
}

/// The message of each refusal.
pub open spec fn spec_manifest_error_message(e: AppManifestError) -> Seq<char> {
    match e {
        AppManifestError::EmptyDisplayName => "application display name must not be empty"@,
        AppManifestError::EmptyCommand => "application command must not be empty"@,
    }
}

impl AppManifestError {
    /// The human-readable message.
    pub fn to_string(&self) -> (r: String)
        ensures
            r@ == spec_manifest_error_message(*self),
    {
        match self {
            AppManifestError::EmptyDisplayName => String::from_str("application display name must not be empty"),
            AppManifestError::EmptyCommand => String::from_str("application command must not be empty"),
        }
    }
}

/// The refusal a manifest's display name and command earn, if any: a
/// blank display name, then a blank command.
pub open spec fn spec_manifest_fields_error(display_name: Seq<char>, command: Seq<char>) -> Option<AppManifestError> {
    if spec_trim(display_name).len() == 0 {
        Some(AppManifestError::EmptyDisplayName)
    } else if spec_trim(command).len() == 0 {
        Some(AppManifestError::EmptyCommand)
    } else {
        None
    }
}

/// Checks a manifest's display name and command: neither may be blank.
pub fn check_manifest_fields(display_name: &str, command: &str) -> (r: Result<(), AppManifestError>)
    ensures
        match r {
            Ok(()) => spec_manifest_fields_error(display_name@, command@) is None,
            Err(e) => spec_manifest_fields_error(display_name@, command@) == Some(e),
        },
{
    if trim_string(display_name).as_str().is_empty() {
        return Err(AppManifestError::EmptyDisplayName);
    }
    if trim_string(command).as_str().is_empty() {
        return Err(AppManifestError::EmptyCommand);
    }
    Ok(())
}

} // verus!
