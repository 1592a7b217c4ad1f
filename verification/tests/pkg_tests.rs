use xenomorph::pkg::{parse_pkg_info, parse_pkg_map, pkg_convert_name, pkg_name_from_file,
    PkgError};
use xenomorph::PackageInfo;

#[test]
fn test_parse_pkg_info() {
    let mut info = PackageInfo::default();

    parse_pkg_info(
        &mut info,
        r#"
SUNW_PRODNAME="SunOS"
SUNW_PRODVERS="5.5"
SUNW_PKGTYPE="usr"
SUNW_PKG_ALLZONES=false
SUNW_PKG_HOLLOW=false
PKG="SUNWesu"
NAME="Extended System Utilities"
VERSION="11.5.1"
ARCH="sparc"
DESC="Have a nice Sun-day!"
VENDOR="Sun Microsystems, Inc."
HOTLINE="Please contact your local service provider"
EMAIL=""
VSTOCK="0122c3f5566"
CATEGORY="system"
ISTATES="S 2"
RSTATES="S 2"
			"#,
    )
    .unwrap();

    assert_eq!(info.arch, "sparc");
    assert_eq!(info.version, "11.5.1");
    assert_eq!(info.description, "Have a nice Sun-day!");
}

#[test]
fn test_parse_pkg_map() {
    let mut info = PackageInfo::default();

    parse_pkg_map(
        &mut info,
        r#"
: 2 500
1 i pkginfo 237 1179 541296672
1 d none bin 0755 root bin
1 f none bin/INSTALL 0755 root bin 11103 17954 541295535
1 f none bin/REMOVE 0755 root bin 3214 50237 541295541
1 l none bin/UNINSTALL=bin/REMOVE
1 f none bin/cmda 0755 root bin 3580 60325 541295567
1 f none bin/cmdb 0755 root bin 49107 51255 541438368
1 f class1 bin/cmdc 0755 root bin 45599 26048 541295599
1 f class1 etc/cmdd 0755 root bin 4648 8473 541461238
1 f none etc/cmde 0755 root bin 40501 1264 541295622
1 f class2 etc/cmdf 0755 root bin 2345 35889 541295574
1 f none etc/cmdg 0755 root bin 41185 47653 541461242
2 d class2 data 0755 root bin
2 p class1 data/apipe 0755 root other
2 d none log 0755 root bin
2 v none log/logfile 0755 root bin 41815 47563 541461333
2 d none save 0755 root bin
2 d none spool 0755 root bin
2 d none tmp 0755 root bin
			"#,
    );

    assert_eq!(
        info.files,
        vec![
            "bin".to_string(),
            "bin/INSTALL".to_string(),
            "bin/REMOVE".to_string(),
            "bin/cmda".to_string(),
            "bin/cmdb".to_string(),
            "bin/cmdc".to_string(),
        ]
    );
    assert_eq!(
        info.conffiles,
        vec![
            "/etc/cmdd".to_string(),
            "/etc/cmde".to_string(),
            "/etc/cmdf".to_string(),
            "/etc/cmdg".to_string(),
        ]
    );
}

#[test]
fn test_parse_pkg_map_collects_scripts() {
    let mut info = PackageInfo::default();
    let refs = parse_pkg_map(
        &mut info,
        "preamble\n1 i none postinstall 237 1179\n1 i none notascript 237 1179\n",
    );
    assert_eq!(refs.len(), 1);
    assert_eq!(refs[0].kind, xenomorph::Script::AfterInstall);
    assert_eq!(refs[0].path, "postinstall");
}

#[test]
fn test_parse_pkg_info_missing_fields() {
    let mut info = PackageInfo::default();
    assert_eq!(parse_pkg_info(&mut info, "VERSION=\"1\"\n"), Err(PkgError::MissingArch));
    assert_eq!(parse_pkg_info(&mut info, "ARCH=\"sparc\"\n"), Err(PkgError::MissingVersion));
}

#[test]
fn test_pkg_convert_name() {
    assert_eq!(pkg_convert_name("libfoo"), "lfoo");
    assert_eq!(pkg_convert_name("bar-perl"), "barp");
    assert_eq!(pkg_convert_name("perl-thing"), "plthing");
    assert_eq!(pkg_convert_name("plain"), "plain");
}

#[test]
fn test_pkg_name_from_file() {
    assert_eq!(pkg_name_from_file("/tmp/SUNWesu-1.0.pkg").as_deref(), Some("SUNWesu"));
    assert_eq!(pkg_name_from_file("nohyphen.pkg"), None);
}

#[test]
fn test_parse_pkg_info_desc_absent_clears_description() {
    let mut info = PackageInfo::default();
    info.description = "stale".to_string();
    parse_pkg_info(&mut info, "ARCH=\"sparc\"\nVERSION=\"1\"\n").unwrap();
    assert_eq!(info.description, "");
}
