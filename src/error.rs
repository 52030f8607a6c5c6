use vstd::prelude::*;

verus! {

/// Every way a run can fail. Each variant keeps what an operator needs to
/// fix the input and try again.
#[derive(Debug)]
pub enum SetVersionError {
    /// The command line had no version argument.
    Usage { program: String },
    /// The requested version is not a semantic version.
    InvalidVersion { input: String, reason: String },
    /// The requested version is not above a member's current version.
    NotIncreasing { new: String, current: String, package: String },
    /// A manifest is not a well-formed document.
    ManifestParse { reason: String },
    /// A member manifest has no `package` table.
    MissingPackageTable,
}

impl SetVersionError {
    /// The message shown to the operator.
    pub open spec fn describe(&self) -> Seq<char> {
        match self {
            SetVersionError::Usage { program } => "Usage: "@ + program@
                + " [--manifest-path <path>] <new_version>"@,
            SetVersionError::InvalidVersion { input, reason } => "'"@ + input@
                + "' is not a valid semver version: "@ + reason@,
            SetVersionError::NotIncreasing { new, current, package } => "new version '"@ + new@
                + "' must be greater than current version '"@ + current@ + "' for package '"@
                + package@ + "'"@,
            SetVersionError::ManifestParse { reason } => "could not parse manifest: "@ + reason@,
            SetVersionError::MissingPackageTable => "could not find package section in Cargo.toml!"@,
        }
    }

    /// The message shown to the operator.
    pub fn message(&self) -> (r: String)
        ensures
            r@ == self.describe(),
    {
        match self {
            SetVersionError::Usage { program } => {
                let mut s = String::from_str("Usage: ");
                s.append(program.as_str());
                s.append(" [--manifest-path <path>] <new_version>");
                s
            },
            SetVersionError::InvalidVersion { input, reason } => {
                let mut s = String::from_str("'");
                s.append(input.as_str());
                s.append("' is not a valid semver version: ");
                s.append(reason.as_str());
                s
            },
            SetVersionError::NotIncreasing { new, current, package } => {
                let mut s = String::from_str("new version '");
                s.append(new.as_str());
                s.append("' must be greater than current version '");
                s.append(current.as_str());
                s.append("' for package '");
                s.append(package.as_str());
                s.append("'");
                s
            },
            SetVersionError::ManifestParse { reason } => {
                let mut s = String::from_str("could not parse manifest: ");
                s.append(reason.as_str());
                s
            },
            SetVersionError::MissingPackageTable => {
                String::from_str("could not find package section in Cargo.toml!")
            },
        }
    }
}

} // verus!
