use rlbot_gui::packages::{check_bot_packages, check_script_packages, settle_scanned_packages, MissingPackagesUpdate, PackageCheck, PackageStatus};

fn status(warn: Option<&str>, missing: Option<&[&str]>) -> PackageStatus {
    PackageStatus {
        warn: warn.map(|warn| warn.to_string()),
        missing_python_packages: missing.map(|missing| missing.iter().map(|name| name.to_string()).collect()),
    }
}

fn update(index: usize, warn: Option<&str>, missing: Option<&[&str]>) -> Option<MissingPackagesUpdate> {
    let status = status(warn, missing);
    Some(MissingPackagesUpdate { index, warn: status.warn, missing_packages: status.missing_python_packages })
}

#[test]
fn without_the_framework_a_clean_bundle_stays_as_it_is() {
    assert_eq!(check_script_packages(0, false, &status(None, None)), PackageCheck::Settled(None));
}

#[test]
fn without_the_framework_warning_and_list_are_cleared() {
    assert_eq!(check_script_packages(4, false, &status(Some("pythonpkg"), None)), PackageCheck::Settled(update(4, None, None)));
    assert_eq!(check_script_packages(5, false, &status(None, Some(&[]))), PackageCheck::Settled(update(5, None, None)));
    assert_eq!(check_script_packages(6, false, &status(Some("other"), Some(&["numpy"]))), PackageCheck::Settled(update(6, None, None)));
}

#[test]
fn an_unknown_list_has_to_be_scanned() {
    assert_eq!(check_script_packages(0, true, &status(None, None)), PackageCheck::Scan);
    assert_eq!(check_script_packages(0, true, &status(Some("pythonpkg"), None)), PackageCheck::Scan);
}

#[test]
fn a_package_warning_without_missing_packages_is_dropped() {
    assert_eq!(check_script_packages(2, true, &status(Some("pythonpkg"), Some(&[]))), PackageCheck::Settled(update(2, None, Some(&[]))));
}

#[test]
fn a_known_list_is_left_alone_otherwise() {
    assert_eq!(check_script_packages(0, true, &status(Some("pythonpkg"), Some(&["numpy"]))), PackageCheck::Settled(None));
    assert_eq!(check_script_packages(0, true, &status(Some("other"), Some(&[]))), PackageCheck::Settled(None));
    assert_eq!(check_script_packages(0, true, &status(None, Some(&[]))), PackageCheck::Settled(None));
    assert_eq!(check_script_packages(0, true, &status(None, Some(&["scipy", "numba"]))), PackageCheck::Settled(None));
}

#[test]
fn only_rlbot_bots_are_looked_at() {
    let warned = status(Some("pythonpkg"), Some(&[]));
    assert_eq!(check_bot_packages(1, true, "rlbot", &warned), PackageCheck::Settled(update(1, None, Some(&[]))));
    assert_eq!(check_bot_packages(1, true, "human", &warned), PackageCheck::Settled(None));
    assert_eq!(check_bot_packages(1, true, "psyonix", &status(None, None)), PackageCheck::Settled(None));
    assert_eq!(check_bot_packages(1, true, "RLBot", &status(None, None)), PackageCheck::Settled(None));
    assert_eq!(check_bot_packages(1, true, "rlbot", &status(None, None)), PackageCheck::Scan);
    assert_eq!(check_bot_packages(1, false, "human", &warned), PackageCheck::Settled(None));
    assert_eq!(check_bot_packages(1, false, "rlbot", &warned), PackageCheck::Settled(update(1, None, None)));
}

#[test]
fn a_scan_that_finds_packages_warns() {
    let found = vec!["numpy".to_string(), "scipy".to_string()];
    assert_eq!(settle_scanned_packages(3, &status(None, None), found.clone()), update(3, Some("pythonpkg"), Some(&["numpy", "scipy"])));
    assert_eq!(settle_scanned_packages(3, &status(Some("pythonpkg"), None), found), update(3, Some("pythonpkg"), Some(&["numpy", "scipy"])));
}

#[test]
fn a_scan_that_finds_nothing_clears_the_warning() {
    assert_eq!(settle_scanned_packages(7, &status(Some("pythonpkg"), None), Vec::new()), update(7, None, Some(&[])));
    assert_eq!(settle_scanned_packages(7, &status(None, None), Vec::new()), update(7, None, Some(&[])));
}

#[test]
fn a_scan_that_confirms_the_status_updates_nothing() {
    let found = vec!["numpy".to_string()];
    assert_eq!(settle_scanned_packages(0, &status(Some("pythonpkg"), Some(&["numpy"])), found), None);
    assert_eq!(settle_scanned_packages(0, &status(None, Some(&[])), Vec::new()), None);
    assert_eq!(
        settle_scanned_packages(0, &status(Some("pythonpkg"), Some(&["numpy"])), vec!["scipy".to_string()]),
        update(0, Some("pythonpkg"), Some(&["scipy"]))
    );
}
