//! The verified core of a small container-tools CLI: deriving the image
//! tag for a build+test cycle, the build-and-test session's state
//! machine with its teardown guarantees, and the generator that turns a
//! script's argument-schema dump into a markdown reference table.

pub mod args;
pub mod json;
pub mod markdown;
pub mod scan;
pub mod schema;
pub mod session;
pub mod strutil;

use vstd::prelude::*;

verus! {

use vstd::string::*;

/// Derives the image tag used for a build+test cycle from the resolved
/// final path component of the build directory: `<basename>:test`, or the
/// fixed fallback `dataeng:test` when the path has no resolvable component.
pub fn get_image_tag(basename: Option<&str>) -> (tag: String)
    ensures
        match basename {
            Some(b) => tag@ == b@ + ":test"@,
            None => tag@ == "dataeng:test"@,
        },
{
    match basename {
        Some(b) => {
            let mut tag = b.to_owned();
            tag.append(":test");
            tag
        }
        None => "dataeng:test".to_owned(),
    }
}

} // verus!
