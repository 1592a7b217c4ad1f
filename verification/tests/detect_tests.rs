use xenomorph::tgz::TgzTarget;
use xenomorph::{detect_source_format, AnyTargetPackage, Format, PackageInfo};

#[test]
fn test_detect_source_format() {
    assert_eq!(detect_source_format("a.deb", "", ""), Some(Format::Deb));
    assert_eq!(detect_source_format("a.rpm", "", ""), Some(Format::Rpm));
    assert_eq!(
        detect_source_format("lsb-a.rpm", "", "glibc\n lsb \n"),
        Some(Format::Lsb)
    );
    // An lsb- name without the dependency is a plain rpm.
    assert_eq!(detect_source_format("lsb-a.rpm", "", "glibc\n"), Some(Format::Rpm));
    assert_eq!(detect_source_format("a-1.0.tgz", "", ""), Some(Format::Tgz));
    assert_eq!(
        detect_source_format("a-1.0.pkg", "# PaCkAgE DaTaStReAm\n", ""),
        Some(Format::Pkg)
    );
    assert_eq!(detect_source_format("a.zip", "", ""), None);
}

#[test]
fn test_any_target_package_dispatch() {
    let mut info = PackageInfo::default();
    info.name = "tool".to_string();
    info.version = "1.0".to_string();
    let target = AnyTargetPackage::Tgz(TgzTarget::new(info, "tool-1.0"));
    assert_eq!(target.info().name, "tool");
    assert_eq!(target.output_name(), "tool-1.0.tgz");
}
