use xenomorph::lsb::{deps_name_lsb, lsb_check_file_name, LsbSource, LsbTarget};
use xenomorph::rpm_source::RpmFields;
use xenomorph::{Format, PackageInfo};

fn raw_fields() -> RpmFields {
    RpmFields {
        prefixes: "(none)".to_string(),
        conffiles: "(contains no files)".to_string(),
        files: "(contains no files)".to_string(),
        binary_info: "dump".to_string(),
        description: "desc".to_string(),
        summary: "sum".to_string(),
        license: "MIT".to_string(),
        copyright: "(none)".to_string(),
        name: "lsb-tool".to_string(),
        version: "1.0".to_string(),
        release: "1".to_string(),
        arch: "noarch".to_string(),
        changelog: "(none)".to_string(),
        before_install: "(none)".to_string(),
        after_install: "(none)".to_string(),
        before_uninstall: "(none)".to_string(),
        after_uninstall: "(none)".to_string(),
    }
}

#[test]
fn test_lsb_check_file_name() {
    assert!(lsb_check_file_name("/tmp/lsb-tool-1.0.rpm"));
    assert!(!lsb_check_file_name("tool-1.0.rpm"));
    assert!(!lsb_check_file_name("lsb-tool-1.0.deb"));
}

#[test]
fn test_deps_name_lsb() {
    assert!(deps_name_lsb("rpmlib(PayloadFilesHavePrefix)\n lsb \n"));
    assert!(!deps_name_lsb("lsb-core\nglibc\n"));
}

#[test]
fn test_lsb_source_markers() {
    let src = LsbSource::new("lsb-tool.rpm", &raw_fields(), &None).unwrap();
    assert_eq!(src.rpm.info.distribution, "Linux Standard Base");
    assert_eq!(src.rpm.info.original_format, Format::Lsb);
    assert_eq!(src.rpm.info.dependencies, vec!["lsb".to_string()]);
    assert!(src.rpm.info.use_scripts);
    assert_eq!(src.rpm.info.name, "lsb-tool");
}

#[test]
fn test_lsb_source_release_is_never_bumped() {
    let mut src = LsbSource::new("lsb-tool.rpm", &raw_fields(), &None).unwrap();
    let before = src.rpm.info.release.clone();
    src.increment_release(3);
    assert_eq!(src.rpm.info.release, before);
}

#[test]
fn test_lsb_target_prefixes_name_and_adds_dependency() {
    let mut info = PackageInfo::default();
    info.name = "tool".to_string();
    info.version = "1.0".to_string();
    info.release = "1".to_string();
    info.arch = "all".to_string();
    let t = LsbTarget::new(info, "tool-1.0", "/w/tool-1.0").unwrap();
    assert_eq!(t.rpm.info.name, "lsb-tool");
    assert_eq!(t.rpm.info.dependencies, vec!["lsb".to_string()]);
    assert!(t.rpm.spec_file.contains("Requires: lsb\n"));

    let mut info = PackageInfo::default();
    info.name = "lsb-tool".to_string();
    let t = LsbTarget::new(info, "d", "/w/d").unwrap();
    assert_eq!(t.rpm.info.name, "lsb-tool");
}
