//! Whether the files of an instance are gone through before a launch, and
//! the markers that spare it for a while.

use vstd::prelude::*;
use crate::decimal::{decimal_digits, lemma_print_then_parse, parse_u64, parse_u64_spec, u64_to_string};
use crate::folder::{join_path, join_path_seq};

verus! {

/// For how many seconds a marker is honoured: ten days.
pub open spec fn marker_lifetime() -> u64 {
    864_000
}

/// A marker is fresh: it holds a time in seconds since the epoch
/// that is not in the future and less than ten days ago.
pub open spec fn marker_is_fresh(contents: Option<Seq<char>>, now: u64) -> bool {
    match contents {
        Some(text) => match parse_u64_spec(text) {
            Some(written) => written <= now && now - written < marker_lifetime(),
            None => false,
        },
        None => false,
    }
}

/// Whether a marker is fresh. `contents` is the text of the marker
/// file where it exists and can be read.
pub fn try_load_lock_file(contents: Option<&str>, now: u64) -> (r: bool)
    ensures
        r == marker_is_fresh(
            match contents {
                Some(text) => Some(text@),
                None => None,
            },
            now,
        ),
{
    match contents {
        Some(text) => match parse_u64(text) {
            Some(written) => written <= now && now - written < 864_000,
            None => false,
        },
        None => false,
    }
}

/// The text of a marker written at `now`.
pub fn save_lock_file(now: u64) -> (r: String)
    ensures
        r@ == decimal_digits(now as nat),
{
    u64_to_string(now)
}

/// Which files a launch goes through.
#[derive(Clone, Copy, Debug, PartialEq, Eq, Structural)]
pub struct CompletionPlan {
    /// The assets are verified and completed, and their marker is written.
    pub check_assets: bool,
    /// The libraries are verified and completed, and their marker is
    /// written.
    pub check_libraries: bool,
}

/// Which files a launch goes through: each of the two kinds unless its
/// marker is fresh.
pub fn complete_files(assets_marker: Option<&str>, libraries_marker: Option<&str>, now: u64) -> (r:
    CompletionPlan)
    ensures
        r.check_assets == !marker_is_fresh(
            match assets_marker {
                Some(text) => Some(text@),
                None => None,
            },
            now,
        ),
        r.check_libraries == !marker_is_fresh(
            match libraries_marker {
                Some(text) => Some(text@),
                None => None,
            },
            now,
        ),
{
    CompletionPlan {
        check_assets: !try_load_lock_file(assets_marker, now),
        check_libraries: !try_load_lock_file(libraries_marker, now),
    }
}

/// The marker of the assets of an instance.
pub fn assets_marker_path(instance_root: &str, sep: char) -> (r: String)
    ensures
        r@ == join_path_seq(instance_root@, ".conic-assets-ok"@, sep),
{
    join_path(instance_root, ".conic-assets-ok", sep)
}

/// The marker of the libraries of an instance.
pub fn libraries_marker_path(instance_root: &str, sep: char) -> (r: String)
    ensures
        r@ == join_path_seq(instance_root@, ".conic-libraries-ok"@, sep),
{
    join_path(instance_root, ".conic-libraries-ok", sep)
}

/// A marker is fresh from the moment it is written until ten days have
/// passed.
pub proof fn lemma_new_marker_is_fresh(now: u64, later: u64)
    requires
        now <= later,
        later - now < marker_lifetime(),
    ensures
        marker_is_fresh(Some(decimal_digits(now as nat)), later),
{
    lemma_print_then_parse(now);
}

} // verus!
