//! The name that a file gets from its capture date and description, made
//! safe for file systems by `sanitise_file_name`, and the parts of a path
//! that the standard library tells apart.

use vstd::prelude::*;
use crate::date::{file_stamp_text, DateFields, DateTime};
use crate::text::text_of;

verus! {

/// What `sanitise_file_name` makes of a name under its default options.
pub uninterp spec fn sanitised_name(name: Seq<char>) -> Seq<char>;

/// Calls `sanitise_file_name::sanitise`, which replaces or drops what is
/// unsafe in a file name and depends on the name alone. The contract only
/// names the result.
#[verifier::external_body]
pub(crate) fn sanitise_name(name: &str) -> (clean: String)
    ensures
        clean@ == sanitised_name(name@),
{
    sanitise_file_name::sanitise(name)
}

/// The extension of a path (`Path::extension`), as text. How a path is cut
/// into parts depends on the platform, so nothing is claimed of the result.
#[verifier::external_body]
pub(crate) fn path_extension(path: &str) -> (extension: Option<String>) {
    match std::path::Path::new(path).extension() {
        Some(extension) => Some(extension.to_string_lossy().into_owned()),
        None => None,
    }
}

/// The last part of a path (`Path::file_name`), as text. Nothing is claimed
/// of the result.
#[verifier::external_body]
pub(crate) fn path_file_name(path: &str) -> (name: Option<String>) {
    match std::path::Path::new(path).file_name() {
        Some(name) => Some(name.to_string_lossy().into_owned()),
        None => None,
    }
}

/// The path with its last part replaced by `name` (`Path::with_file_name`),
/// as text. Nothing is claimed of the result.
#[verifier::external_body]
pub(crate) fn path_with_file_name(path: &str, name: &str) -> (renamed: String) {
    std::path::Path::new(path).with_file_name(name).to_string_lossy().into_owned()
}

/// The name before it is made safe: the date as `YYYY_MM_DD-HH_MM_SS`, then
/// ` - ` and the description where there is one, then a full stop and the
/// extension where there is one.
pub open spec fn raw_target_name(
    date: DateFields,
    description: Option<Seq<char>>,
    extension: Option<Seq<char>>,
) -> Seq<char> {
    file_stamp_text(date) + (match description {
        Some(d) => seq![' ', '-', ' '] + d,
        None => Seq::empty(),
    }) + (match extension {
        Some(e) => seq!['.'] + e,
        None => Seq::empty(),
    })
}

/// The name that a file with this date, description and extension is to
/// have.
pub open spec fn target_name(
    date: DateFields,
    description: Option<Seq<char>>,
    extension: Option<Seq<char>>,
) -> Seq<char> {
    sanitised_name(raw_target_name(date, description, extension))
}

/// Computes the name that a file with this date, description and extension
/// is to have.
pub fn target_file_name(
    date: &DateTime,
    description: &Option<String>,
    extension: &Option<String>,
) -> (name: String)
    ensures
        name@ == target_name(date@, text_of(*description), text_of(*extension)),
{
    let mut name = date.to_file_stamp();
    match description {
        Some(d) => {
            proof {
                reveal_strlit(" - ");
            }
            name.append(" - ");
            name.append(d.as_str());
        },
        None => {},
    }
    match extension {
        Some(e) => {
            proof {
                reveal_strlit(".");
            }
            name.append(".");
            name.append(e.as_str());
        },
        None => {},
    }
    assert(name@ =~= raw_target_name(date@, text_of(*description), text_of(*extension)));
    sanitise_name(name.as_str())
}

} // verus!
