//! The version gate: deciding whether the bundled server has to be unpacked.

use vstd::prelude::*;
use vstd::string::*;
use crate::text::optional_text;

verus! {

/// Whether the server tree has to be unpacked (again): the entry point is
/// missing, or the version marker could not be read, or it holds anything
/// but exactly `version`.
pub open spec fn extraction_needed(
    entry_point_present: bool,
    marker: Option<Seq<char>>,
    version: Seq<char>,
) -> bool {
    !entry_point_present || marker is None || marker->0 != version
}

/// Decides whether the server tree has to be unpacked.
///
/// `entry_point_present` says whether the server's entry point exists in the
/// application data directory, `marker` is the content of the version marker
/// there (`None` if it could not be read), and `version` is the version of
/// the running application. The decision has no side effects.
pub fn needs_extraction(
    entry_point_present: bool,
    marker: &Option<String>,
    version: &String,
) -> (needed: bool)
    ensures
        needed == extraction_needed(entry_point_present, optional_text(*marker), version@),
{
    if !entry_point_present {
        return true;
    }
    match marker {
        Some(text) => *text != *version,
        None => true,
    }
}

/// Nothing has to be unpacked exactly when the entry point exists and the
/// marker holds exactly the running version.
pub proof fn lemma_up_to_date(
    entry_point_present: bool,
    marker: Option<Seq<char>>,
    version: Seq<char>,
)
    ensures
        !extraction_needed(entry_point_present, marker, version) <==> entry_point_present && marker
            == Some(version),
{
}

} // verus!
