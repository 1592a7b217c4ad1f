use base64::Engine;

use xenomorph::rpm_source::{
    arch_to_deb, field_value, parse_file_list, parse_ownership_lines, prefix_steps,
    reconcile_entry, reconcile_ownership, relocate_conffiles, sanitize_script, OwnershipLine,
    RpmError, RpmFields, RpmSource,
};
use xenomorph::rpm_target::{arch_to_rpm, rpm_files_list, rpm_wrap_script, RpmTarget,
    RpmTargetError};
use xenomorph::PackageInfo;

fn raw_fields() -> RpmFields {
    RpmFields {
        prefixes: "(none)".to_string(),
        conffiles: "(contains no files)".to_string(),
        files: "/usr/bin/tool\n".to_string(),
        binary_info: "info dump".to_string(),
        description: "First line\nrest".to_string(),
        summary: "(none)".to_string(),
        license: "(none)".to_string(),
        copyright: "GPL".to_string(),
        name: "tool".to_string(),
        version: "1.0".to_string(),
        release: "3".to_string(),
        arch: "x86_64".to_string(),
        changelog: "(none)".to_string(),
        before_install: "(none)".to_string(),
        after_install: "#!/bin/sh\necho hi\n".to_string(),
        before_uninstall: "(none)".to_string(),
        after_uninstall: "(none)".to_string(),
    }
}

#[test]
fn test_check_file() {
    assert!(RpmSource::check_file("/tmp/foo-1.0.RPM"));
    assert!(RpmSource::check_file("foo.rpm"));
    assert!(!RpmSource::check_file("foo.deb"));
    assert!(!RpmSource::check_file("rpm"));
}

#[test]
fn test_field_value_none_marker() {
    assert_eq!(field_value(&"(none)".to_string()), None);
    assert_eq!(field_value(&"x".to_string()).as_deref(), Some("x"));
}

#[test]
fn test_parse_file_list() {
    assert_eq!(parse_file_list("(contains no files)"), Vec::<String>::new());
    assert_eq!(
        parse_file_list(" /usr/bin/a \n/etc/b\n"),
        vec!["/usr/bin/a".to_string(), "/etc/b".to_string()]
    );
}

#[test]
fn test_rpm_source_fallbacks() {
    let src = RpmSource::new("tool.rpm", &raw_fields(), &None).unwrap();
    // No summary queried: the description's first line stands in.
    assert_eq!(src.info.summary, "First line");
    assert_eq!(src.info.description, "First line\nrest");
    // No license: the older copyright field stands in.
    assert_eq!(src.info.copyright, "GPL");
    assert_eq!(src.info.name, "tool");
    assert_eq!(src.info.distribution, "Red Hat");
    assert_eq!(src.info.files, vec!["/usr/bin/tool".to_string()]);
    assert!(src.info.conffiles.is_empty());
    assert!(src.prefixes.is_none());
}

#[test]
fn test_rpm_source_missing_fields() {
    let mut fields = raw_fields();
    fields.name = "(none)".to_string();
    assert_eq!(RpmSource::new("tool.rpm", &fields, &None).err(), Some(RpmError::MissingName));
    let mut fields = raw_fields();
    fields.version = "(none)".to_string();
    assert_eq!(RpmSource::new("tool.rpm", &fields, &None).err(), Some(RpmError::MissingVersion));
    let mut fields = raw_fields();
    fields.release = "(none)".to_string();
    assert_eq!(RpmSource::new("tool.rpm", &fields, &None).err(), Some(RpmError::MissingRelease));
}

#[test]
fn test_rpm_files_list_bad_escape() {
    // A double-quoted name with an invalid escape cannot be unquoted.
    let files = vec!["\"a\\q\"".to_string()];
    let r = rpm_files_list(&files, &vec![]);
    assert_eq!(r.err(), Some(RpmTargetError::BadFileName));
}

#[test]
fn test_arch_tables() {
    assert_eq!(arch_to_deb("x86_64"), "amd64");
    assert_eq!(arch_to_deb("noarch"), "all");
    assert_eq!(arch_to_deb("i686"), "i386");
    assert_eq!(arch_to_deb("Pentium"), "i386");
    assert_eq!(arch_to_deb("riscv64"), "riscv64");
    assert_eq!(arch_to_rpm("amd64"), "x86_64");
    assert_eq!(arch_to_rpm("all"), "noarch");
    assert_eq!(arch_to_rpm("riscv64"), "riscv64");
}

#[test]
fn test_sanitize_script() {
    // A shell script has its interpreter rewritten to bash.
    assert_eq!(
        sanitize_script(&None, &Some("#!/bin/sh\necho hi\n".to_string())),
        "#!/bin/bash\necho hi\n"
    );
    // The relocation prefix is exported before the first line break.
    assert_eq!(
        sanitize_script(&Some("/opt".to_string()), &Some("#!/bin/sh\necho hi\n".to_string())),
        "#!/bin/bash\nRPM_INSTALL_PREFIX=/opt\nexport RPM_INSTALL_PREFIX\necho hi\n"
    );
    // A bare script gains a bash interpreter line.
    assert_eq!(sanitize_script(&None, &Some("echo hi\n".to_string())), "#!/bin/bash\necho hi\n");
    // An absent script becomes the minimal preamble.
    assert_eq!(sanitize_script(&None, &None), "#!/bin/bash\n");
}

#[test]
fn test_ownership_lines_and_reconciliation() {
    let lines = parse_ownership_lines("33188 bob root /usr/bin/tool\n35309 root root /usr/bin/su\n")
        .unwrap();
    assert_eq!(lines.len(), 2);
    // 33188 is a regular file mode; the file type bits are masked off.
    assert_eq!(lines[0].mode, 420);
    assert_eq!(lines[0].owner, "bob");
    assert_eq!(lines[0].group, "root");
    assert_eq!(lines[0].path, "/usr/bin/tool");

    // "bob" does not resolve to a root-equivalent user; "root" resolves.
    let e = reconcile_entry(&lines[0], false, true).unwrap();
    assert_eq!(e.path, "/usr/bin/tool");
    assert_eq!(e.info.owner, "bob");
    assert_eq!(e.info.mode, None);

    // A fully resolved file gets no record.
    assert!(reconcile_entry(&lines[1], true, true).is_none());

    // A setuid file owned by an unresolved user keeps its mode.
    let su = OwnershipLine {
        mode: 0o4755,
        owner: "admin".to_string(),
        group: "wheel".to_string(),
        path: "/usr/bin/su".to_string(),
    };
    let e = reconcile_entry(&su, false, false).unwrap();
    assert_eq!(e.info.owner, "admin:wheel");
    assert_eq!(e.info.mode, Some(0o4755));

    let all = reconcile_ownership(&lines, &vec![(false, true), (true, true)]);
    assert_eq!(all.len(), 1);
    assert_eq!(all[0].info.owner, "bob");
}

#[test]
fn test_bad_ownership_mode_fails() {
    assert!(parse_ownership_lines("notanumber bob root /x\n").is_none());
}

#[test]
fn test_relocation_helpers() {
    // Only the proper intermediate directories are walked; whether the
    // target itself exists is a separate, prior check.
    assert_eq!(
        prefix_steps("/opt/vendor/app"),
        vec!["/opt".to_string(), "/opt/vendor".to_string()]
    );
    assert_eq!(prefix_steps("/opt/app"), vec!["/opt".to_string()]);
    assert_eq!(prefix_steps("/opt"), Vec::<String>::new());
    assert_eq!(prefix_steps("opt/app"), vec!["opt".to_string()]);
    assert_eq!(
        relocate_conffiles("/opt", &vec!["/etc/tool.conf".to_string()]),
        vec!["/opt/etc/tool.conf".to_string()]
    );
}

#[test]
fn test_rpm_wrap_script() {
    // A shell script is left alone.
    assert_eq!(rpm_wrap_script("#!/bin/sh\ntrue\n"), "#!/bin/sh\ntrue\n");
    // A blank script is left alone.
    assert_eq!(rpm_wrap_script("  \n"), "  \n");
    // Anything else is base64-encoded into a decoding stub.
    let script = "#!/usr/bin/perl\nprint\n";
    let wrapped = rpm_wrap_script(script);
    let encoded = base64::engine::general_purpose::STANDARD.encode(script.as_bytes());
    assert!(wrapped.starts_with("#!/bin/sh\nset -e\n"));
    assert!(wrapped.contains(&encoded));
    assert!(wrapped.contains("| base64 -d > /tmp/alien.$$/script"));
}

#[test]
fn test_rpm_files_list_unquotes_names() {
    let files = vec!["'/usr/my file'".to_string(), "/usr/share/".to_string(), "/etc/a".to_string()];
    let conffiles = vec!["/etc/a".to_string()];
    let out: String = rpm_files_list(&files, &conffiles).unwrap().into_iter().collect();
    assert_eq!(out, "\"/usr/my file\"\n%dir \"/usr/share/\"\n%config \"/etc/a\"\n");
}

#[test]
fn test_rpm_target_spec_file() {
    let mut info = PackageInfo::default();
    info.name = "tool".to_string();
    info.version = "1.0-fix".to_string();
    info.release = "2".to_string();
    info.arch = "amd64".to_string();
    info.summary = "A tool".to_string();
    info.copyright = "MIT".to_string();
    info.distribution = "Red Hat".to_string();
    info.group = "Utilities".to_string();
    info.description = "Body".to_string();
    info.files = vec!["/usr/bin/tool".to_string()];

    let target = RpmTarget::new(info, "tool-1.0", "/work/tool-1.0").unwrap();
    // The rpm grammar forbids `-` in versions.
    assert_eq!(target.info.version, "1.0_fix");
    assert_eq!(target.info.arch, "x86_64");
    let spec = &target.spec_file;
    assert!(spec.starts_with("Buildroot: /work/tool-1.0\nName: tool\nVersion: 1.0_fix\nRelease: 2\n"));
    assert!(spec.contains("Group: Converted/Utilities\n"));
    assert!(spec.contains("%files\n\"/usr/bin/tool\"\n"));
    assert!(spec.contains("(Converted from a deb package by alien version 0.1.0.)"));
}
