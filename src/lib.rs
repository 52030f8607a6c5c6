//! Bulk version updates for the members of a Cargo workspace: parsing and
//! comparing semantic versions, reading the command line, choosing the
//! workspace members, and rewriting each member manifest's own version and
//! its entries for sibling members.

pub mod error;
pub mod manifest;
pub mod version;
pub mod workspace;

pub use error::SetVersionError;
pub use manifest::{is_member, update_document, update_manifest};
pub use version::{ensure_version_increase, parse_new_version, Version};
pub use workspace::{member_names, parse_args, rewrite_member, Invocation, Package};
