//! Keeping what a bundle says about its python packages in step with what is
//! installed.
//!
//! A bundle, a bot or a script, carries a warning and the list of packages it
//! misses, where that list is known. Finding the missing packages means
//! asking the python interpreter and is the caller's to perform: a check says
//! whether that is needed, and the caller comes back with what was found.

use crate::console::texts;
use crate::text::{copy_lines, same_lines, same_text};
use vstd::prelude::*;

verus! {

/// The warning of a bundle that misses python packages.
pub open spec fn package_warning() -> Seq<char> {
    "pythonpkg"@
}

/// The runnable type of the bots whose packages are looked at.
pub open spec fn rlbot_type() -> Seq<char> {
    "rlbot"@
}

/// What a bundle says about its python packages.
#[derive(Debug, PartialEq, Eq)]
pub struct PackageStatus {
    /// The warning shown with the bundle, if any.
    pub warn: Option<String>,
    /// The packages that the bundle misses, if that was looked up.
    pub missing_python_packages: Option<Vec<String>>,
}

/// A [`PackageStatus`] as plain values.
pub struct StatusView {
    pub warn: Option<Seq<char>>,
    pub missing: Option<Seq<Seq<char>>>,
}

/// The text of an optional string.
pub open spec fn text_of(text: Option<String>) -> Option<Seq<char>> {
    match text {
        Some(text) => Some(text@),
        None => None,
    }
}

/// The lines of an optional list.
pub open spec fn lines_of(lines: Option<Vec<String>>) -> Option<Seq<Seq<char>>> {
    match lines {
        Some(lines) => Some(texts(lines@)),
        None => None,
    }
}

impl View for PackageStatus {
    type V = StatusView;

    open spec fn view(&self) -> StatusView {
        StatusView { warn: text_of(self.warn), missing: lines_of(self.missing_python_packages) }
    }
}

/// What is to change about the bundle at `index` of the list that was asked
/// about.
#[derive(Debug, PartialEq, Eq)]
pub struct MissingPackagesUpdate {
    pub index: usize,
    pub warn: Option<String>,
    pub missing_packages: Option<Vec<String>>,
}

/// A [`MissingPackagesUpdate`] as plain values.
pub struct UpdateView {
    pub index: usize,
    pub status: StatusView,
}

impl View for MissingPackagesUpdate {
    type V = UpdateView;

    open spec fn view(&self) -> UpdateView {
        UpdateView {
            index: self.index,
            status: StatusView { warn: text_of(self.warn), missing: lines_of(self.missing_packages) },
        }
    }
}

/// An optional update as plain values.
pub open spec fn update_of(update: Option<MissingPackagesUpdate>) -> Option<UpdateView> {
    match update {
        Some(update) => Some(update@),
        None => None,
    }
}

/// The status of a bundle whose missing packages are known: as it was, but
/// without the package warning when it misses none.
pub open spec fn kept_status(status: StatusView) -> StatusView {
    StatusView {
        warn: if status.warn == Some(package_warning()) && status.missing == Some(
            Seq::<Seq<char>>::empty(),
        ) {
            None
        } else {
            status.warn
        },
        missing: status.missing,
    }
}

/// The status of a bundle that was found to miss `found`: the package warning
/// if it misses any, no warning if it misses none.
pub open spec fn scanned_status(found: Seq<Seq<char>>) -> StatusView {
    StatusView {
        warn: if found.len() > 0 {
            Some(package_warning())
        } else {
            None
        },
        missing: Some(found),
    }
}

/// The status of a bundle when the framework itself is not installed: nothing
/// is known and nothing is warned about.
pub open spec fn cleared_status() -> StatusView {
    StatusView { warn: None, missing: None }
}

/// The update that takes the bundle at `index` from `old` to `new`; none when
/// the two are the same.
pub open spec fn update_to(index: usize, old: StatusView, new: StatusView) -> Option<UpdateView> {
    if new != old {
        Some(UpdateView { index, status: new })
    } else {
        None
    }
}

/// Whether the missing packages of a bundle have to be looked up: the
/// framework is installed and the bundle does not know them yet.
pub open spec fn needs_scan(has_rlbot: bool, status: StatusView) -> bool {
    has_rlbot && status.missing is None
}

/// What checking a bundle comes to.
#[derive(Debug, PartialEq, Eq)]
pub enum PackageCheck {
    /// The missing packages have to be looked up first.
    Scan,
    /// Nothing has to be looked up: this is the update, if there is one.
    Settled(Option<MissingPackagesUpdate>),
}

fn same_optional_text(a: &Option<String>, b: &Option<String>) -> (same: bool)
    ensures
        same == (text_of(*a) == text_of(*b)),
{
    match (a, b) {
        (Some(a), Some(b)) => same_text(a.as_str(), b.as_str()),
        (None, None) => true,
        _ => false,
    }
}

fn same_optional_lines(a: &Option<Vec<String>>, b: &Option<Vec<String>>) -> (same: bool)
    ensures
        same == (lines_of(*a) == lines_of(*b)),
{
    match (a, b) {
        (Some(a), Some(b)) => same_lines(a, b),
        (None, None) => true,
        _ => false,
    }
}

fn update_if_changed(
    index: usize,
    old: &PackageStatus,
    warn: Option<String>,
    missing_packages: Option<Vec<String>>,
) -> (update: Option<MissingPackagesUpdate>)
    ensures
        update_of(update) == update_to(
            index,
            old@,
            (StatusView { warn: text_of(warn), missing: lines_of(missing_packages) }),
        ),
{
    if !same_optional_text(&warn, &old.warn) || !same_optional_lines(
        &missing_packages,
        &old.missing_python_packages,
    ) {
        Some(MissingPackagesUpdate { index, warn, missing_packages })
    } else {
        None
    }
}

/// Checks the packages of the script at `index`.
///
/// Without the framework, a script that carries a warning or a list of
/// missing packages loses both. With it, a script that knows its missing
/// packages loses the package warning if it misses none; one that does not
/// know them has to be scanned.
pub fn check_script_packages(index: usize, has_rlbot: bool, status: &PackageStatus) -> (check:
    PackageCheck)
    ensures
        check is Scan <==> needs_scan(has_rlbot, status@),
        check matches PackageCheck::Settled(update) ==> update_of(update) == update_to(
            index,
            status@,
            if has_rlbot {
                kept_status(status@)
            } else {
                cleared_status()
            },
        ),
{
    if !has_rlbot {
        return PackageCheck::Settled(update_if_changed(index, status, None, None));
    }
    match &status.missing_python_packages {
        None => PackageCheck::Scan,
        Some(missing) => {
            let clear = match &status.warn {
                Some(warn) => same_text(warn.as_str(), "pythonpkg") && missing.len() == 0,
                None => false,
            };
            proof {
                assert(missing@.len() == 0 <==> texts(missing@) =~= Seq::<Seq<char>>::empty());
            }
            let warn = if clear {
                None
            } else {
                match &status.warn {
                    Some(warn) => Some(warn.clone()),
                    None => None,
                }
            };
            PackageCheck::Settled(
                update_if_changed(index, status, warn, Some(copy_lines(missing))),
            )
        },
    }
}

/// Checks the packages of the bot at `index`. Only bots of the runnable type
/// `rlbot` are looked at, and those as a script is; for any other bot there
/// is nothing to update.
pub fn check_bot_packages(
    index: usize,
    has_rlbot: bool,
    runnable_type: &str,
    status: &PackageStatus,
) -> (check: PackageCheck)
    ensures
        check is Scan <==> runnable_type@ == rlbot_type() && needs_scan(has_rlbot, status@),
        check matches PackageCheck::Settled(update) ==> update_of(update) == if runnable_type@
            == rlbot_type() {
            update_to(
                index,
                status@,
                if has_rlbot {
                    kept_status(status@)
                } else {
                    cleared_status()
                },
            )
        } else {
            None
        },
{
    if same_text(runnable_type, "rlbot") {
        check_script_packages(index, has_rlbot, status)
    } else {
        PackageCheck::Settled(None)
    }
}

/// Settles the bundle at `index` after its missing packages were looked up
/// and `found`: it is warned about if it misses any, and the list is kept.
pub fn settle_scanned_packages(index: usize, status: &PackageStatus, found: Vec<String>) -> (update:
    Option<MissingPackagesUpdate>)
    ensures
        update_of(update) == update_to(index, status@, scanned_status(texts(found@))),
{
    let warn = if found.len() > 0 {
        Some("pythonpkg".to_string())
    } else {
        None
    };
    update_if_changed(index, status, warn, Some(found))
}

} // verus!
