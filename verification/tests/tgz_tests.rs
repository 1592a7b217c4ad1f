use xenomorph::container::TarEntry;
use xenomorph::tgz::{tgz_name_version, tgz_output_name, TgzSource, TgzTarget};
use xenomorph::{PackageInfo, Script};

#[test]
fn test_tgz_check_file() {
    assert!(TgzSource::check_file("pkg-1.0.tgz"));
    assert!(TgzSource::check_file("pkg-1.0.TAZ"));
    assert!(TgzSource::check_file("pkg-1.0.tar.gz"));
    assert!(TgzSource::check_file("pkg-1.0.tar.bz2"));
    assert!(!TgzSource::check_file("pkg-1.0.gz"));
    assert!(!TgzSource::check_file("pkg-1.0.zip"));
    assert!(!TgzSource::check_file("pkg"));
}

#[test]
fn test_tgz_name_version() {
    assert_eq!(
        tgz_name_version("/tmp/foo-1.2.tgz"),
        ("foo".to_string(), "1.2".to_string())
    );
    assert_eq!(tgz_name_version("bare.tgz"), ("bare".to_string(), "1".to_string()));
}

fn entry(name: &str, mode: Option<u32>, data: &[u8]) -> TarEntry {
    TarEntry { name: name.as_bytes().to_vec(), mode, typeflag: b'0', data: data.to_vec() }
}

#[test]
fn test_tgz_classification() {
    let entries = vec![
        entry("etc/tool.conf", Some(0o644), b""),
        entry("usr/bin/tool", Some(0o755), b""),
        entry("install/doinst.sh", Some(0o755), b"#!/bin/sh\ntrue\n"),
        entry("install/slack-desc", Some(0o644), b"desc"),
    ];
    let src = TgzSource::new("tool-1.0.tgz", "listing", &entries).unwrap();
    assert_eq!(src.info.name, "tool");
    assert_eq!(src.info.version, "1.0");
    assert_eq!(src.info.release, "1");
    assert_eq!(src.info.arch, "all");
    assert_eq!(src.info.conffiles, vec!["/etc/tool.conf".to_string()]);
    // The install directory is kept out of the payload.
    assert_eq!(src.info.files, vec!["/usr/bin/tool".to_string()]);
    assert_eq!(
        src.info.scripts.get(Script::AfterInstall).as_deref(),
        Some(&"#!/bin/sh\ntrue\n".to_string()).map(|s| s.as_str())
    );
    assert_eq!(src.info.distribution, "Slackware/tarball");
    assert_eq!(src.info.binary_info, "listing");
}

#[test]
fn test_tgz_etc_entry_without_mode_fails() {
    let entries = vec![entry("etc/x", None, b"")];
    assert!(TgzSource::new("a-1.tgz", "", &entries).is_err());
}

#[test]
fn test_tgz_target_scripts_and_name() {
    let mut info = PackageInfo::default();
    info.name = "tool".to_string();
    info.version = "1.0".to_string();
    info.use_scripts = true;
    info.scripts.set(Script::AfterInstall, "#!/bin/sh\ntrue\n".to_string());
    info.scripts.set(Script::BeforeUninstall, "  ".to_string());

    let target = TgzTarget::new(info, "tool-1.0");
    assert_eq!(target.scripts.len(), 1);
    assert_eq!(target.scripts[0].name, "doinst.sh");
    assert_eq!(tgz_output_name(&target.info), "tool-1.0.tgz");
}

#[test]
fn test_tgz_target_without_scripts() {
    let mut info = PackageInfo::default();
    info.scripts.set(Script::AfterInstall, "#!/bin/sh\ntrue\n".to_string());
    let target = TgzTarget::new(info, "d");
    assert!(target.scripts.is_empty());
}
