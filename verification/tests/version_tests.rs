use xenomorph::version::{
    deb_sanitize_release, deb_sanitize_version, rpm_sanitize_version, set_version_and_release,
};
use xenomorph::PackageInfo;

#[test]
fn test_set_version_and_release() {
    let mut info = PackageInfo::default();

    set_version_and_release(&mut info, "1.0.0");
    assert_eq!(info.version, "1.0.0");
    assert_eq!(info.release, "1");

    // With revision
    set_version_and_release(&mut info, "1.0.0-2");
    assert_eq!(info.version, "1.0.0");
    assert_eq!(info.release, "2");

    // With epoch
    set_version_and_release(&mut info, "3:1.0.0-2");
    assert_eq!(info.version, "1.0.0");
    assert_eq!(info.release, "2");
}

#[test]
fn test_split_is_on_last_hyphen() {
    let mut info = PackageInfo::default();
    set_version_and_release(&mut info, "1.0-beta-3");
    assert_eq!(info.version, "1.0-beta");
    assert_eq!(info.release, "3");
}

#[test]
fn test_deb_sanitize_version_filters_characters() {
    assert_eq!(deb_sanitize_version("1.0 beta!"), "1.0beta");
    assert_eq!(deb_sanitize_version("1.0.0"), "1.0.0");
}

#[test]
fn test_deb_sanitize_version_prepends_digit() {
    assert_eq!(deb_sanitize_version("beta"), "0beta");
    assert_eq!(deb_sanitize_version(""), "0");
}

#[test]
fn test_deb_sanitize_release() {
    assert_eq!(deb_sanitize_release("7"), "7");
    assert_eq!(deb_sanitize_release("beta"), "beta-1");
}

#[test]
fn test_rpm_sanitize_version() {
    assert_eq!(rpm_sanitize_version("1.0-beta"), "1.0_beta");
    assert_eq!(rpm_sanitize_version("1.0.0"), "1.0.0");
}

#[test]
fn test_increment_release() {
    let mut info = PackageInfo::default();
    info.release = "2".to_owned();
    info.increment_release(1);
    assert_eq!(info.release, "3");

    info.release = "beta".to_owned();
    info.increment_release(4);
    assert_eq!(info.release, "4");
}
