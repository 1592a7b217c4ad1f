use std::io::Read;

use xenomorph::container::{extract_member, tar_parse, MemberError};
use xenomorph::deb_source::{
    control_files_from_tar, lookup_control, normalize_payload_path,
};
use xenomorph::deb_target::{
    deb_changelog, deb_compat, deb_conffiles, deb_control, deb_rules, deb_sanitize_description,
    deb_script_files, patch_postinst, PostinstPatch,
};
use xenomorph::{read_control, Format, FileEntry, FileInfo, PackageInfo};

fn test_deb_archive() -> Vec<u8> {
    let control = b"
Package: xenomorph
Version: 0.1.0-2
Architecture: amd64
Maintainer: Leah Amelia Chen <hi@pluie.me>
Section: Utilities
Description:
  Morph between package formats
";

    let mut control_files = tar::Builder::new(vec![]);
    let mut header = tar::Header::new_gnu();
    header.set_size(control.len() as u64);
    header.set_cksum();
    control_files
        .append_data(&mut header, "control", &control[..])
        .unwrap();
    let control_tar = control_files.into_inner().unwrap();

    let data_files = tar::Builder::new(vec![]);
    let data_tar = data_files.into_inner().unwrap();

    let mut deb_archive = ar::Builder::new(vec![]);
    deb_archive
        .append(
            &ar::Header::new(b"control.tar".to_vec(), control_tar.len() as u64),
            control_tar.as_slice(),
        )
        .unwrap();
    deb_archive
        .append(
            &ar::Header::new(b"data.tar".to_vec(), data_tar.len() as u64),
            data_tar.as_slice(),
        )
        .unwrap();

    deb_archive.into_inner().unwrap()
}

#[test]
fn test_deb_archive_extract_manually() {
    let deb_archive = test_deb_archive();
    let control_tar = extract_member(&deb_archive, &b"control.tar".to_vec()).unwrap();
    let entries = tar_parse(&control_tar).unwrap();
    let control_files = control_files_from_tar(&entries).unwrap();
    let control = lookup_control(&control_files, "control").unwrap();
    let mut info = PackageInfo::default();
    read_control(&mut info, &control.clone());

    assert_eq!(info.name, "xenomorph");
    assert_eq!(info.version, "0.1.0");
    assert_eq!(info.release, "2");
    assert_eq!(info.arch, "amd64");
    assert_eq!(info.maintainer, "Leah Amelia Chen <hi@pluie.me>");
    assert_eq!(info.group, "Utilities");
    assert_eq!(info.description, "Morph between package formats\n");
}

#[test]
fn test_minimal_member_archive_end_to_end() {
    let control = b"Package: xenomorph
Version: 0.1.0-2
Architecture: amd64
Maintainer: A B <a@b>
Section: Utilities
Description: Morph between formats
";
    let mut control_files = tar::Builder::new(vec![]);
    let mut header = tar::Header::new_gnu();
    header.set_size(control.len() as u64);
    header.set_cksum();
    control_files
        .append_data(&mut header, "control", &control[..])
        .unwrap();
    let control_tar = control_files.into_inner().unwrap();
    let data_tar = tar::Builder::new(vec![]).into_inner().unwrap();

    let mut deb_archive = ar::Builder::new(vec![]);
    deb_archive
        .append(
            &ar::Header::new(b"control.tar".to_vec(), control_tar.len() as u64),
            control_tar.as_slice(),
        )
        .unwrap();
    deb_archive
        .append(
            &ar::Header::new(b"data.tar".to_vec(), data_tar.len() as u64),
            data_tar.as_slice(),
        )
        .unwrap();
    let archive = deb_archive.into_inner().unwrap();

    let control_member = extract_member(&archive, &b"control.tar".to_vec()).unwrap();
    let files = control_files_from_tar(&tar_parse(&control_member).unwrap()).unwrap();
    let data_member = extract_member(&archive, &b"data.tar".to_vec()).unwrap();
    let data_entries = tar_parse(&data_member).unwrap();
    let mut data_paths: Vec<String> = vec![];
    for e in &data_entries {
        data_paths.push(String::from_utf8(e.name.clone()).unwrap());
    }

    let info =
        xenomorph::deb_info_from_control_files(&files, &data_paths, "xenomorph.deb", &None)
            .unwrap();
    assert_eq!(info.name, "xenomorph");
    assert_eq!(info.version, "0.1.0");
    assert_eq!(info.release, "2");
    assert_eq!(info.arch, "amd64");
    assert_eq!(info.maintainer, "A B <a@b>");
    assert_eq!(info.group, "Utilities");
    assert_eq!(info.summary, "Morph between formats");
    assert_eq!(info.copyright, "see /usr/share/doc/xenomorph/copyright");
    assert!(info.files.is_empty());
}

#[test]
fn test_gzipped_member_is_decompressed() {
    let payload = b"plain nested archive bytes";
    let mut enc =
        flate2::write::GzEncoder::new(vec![], flate2::Compression::default());
    std::io::Write::write_all(&mut enc, payload).unwrap();
    let gz = enc.finish().unwrap();

    let mut archive = ar::Builder::new(vec![]);
    archive
        .append(
            &ar::Header::new(b"control.tar.gz".to_vec(), gz.len() as u64),
            gz.as_slice(),
        )
        .unwrap();
    let bytes = archive.into_inner().unwrap();

    let out = extract_member(&bytes, &b"control.tar".to_vec()).unwrap();
    assert_eq!(out, payload.to_vec());

    // The same bytes read back through the decoder crate agree.
    let mut check = vec![];
    flate2::read::GzDecoder::new(gz.as_slice())
        .read_to_end(&mut check)
        .unwrap();
    assert_eq!(check, payload.to_vec());
}

#[test]
fn test_member_errors() {
    let mut archive = ar::Builder::new(vec![]);
    archive
        .append(&ar::Header::new(b"control.tar.zst".to_vec(), 2), &b"xx"[..])
        .unwrap();
    let bytes = archive.into_inner().unwrap();

    assert_eq!(
        extract_member(&bytes, &b"control.tar".to_vec()),
        Err(MemberError::UnknownCodec)
    );
    assert_eq!(
        extract_member(&bytes, &b"data.tar".to_vec()),
        Err(MemberError::MissingMember)
    );
    assert_eq!(
        extract_member(&b"garbage".to_vec(), &b"control.tar".to_vec()),
        Err(MemberError::MalformedArchive)
    );
}

#[test]
fn test_missing_control_file() {
    let files: Vec<xenomorph::ControlFile> = vec![];
    let r = xenomorph::deb_info_from_control_files(&files, &vec![], "x.deb", &None);
    assert_eq!(r, Err(xenomorph::DebError::MissingControl));
}

#[test]
fn test_normalize_payload_path() {
    assert_eq!(normalize_payload_path("./usr/bin/x"), "/usr/bin/x");
    assert_eq!(normalize_payload_path("usr/bin/x"), "/usr/bin/x");
    assert_eq!(normalize_payload_path("/usr/bin/x"), "/usr/bin/x");
    assert_eq!(normalize_payload_path("."), "/");
}

#[test]
fn test_description_reformatting() {
    let out = deb_sanitize_description("line\twith tab  \n\nnext", Format::Deb);
    assert_eq!(
        out,
        " line        with tab\n .\n next\n .\n (Converted from a deb package by alien version 0.1.0.)"
    );
}

#[test]
fn test_description_reformatting_empty() {
    let out = deb_sanitize_description("", Format::Rpm);
    assert_eq!(out, " (Converted from a rpm package by alien version 0.1.0.)");
}

#[test]
fn test_ownership_fixup_injection() {
    let entries = vec![FileEntry {
        path: "/usr/bin/tool".to_string(),
        info: FileInfo { owner: "bob".to_string(), mode: None },
    }];
    match patch_postinst(String::new(), &entries) {
        PostinstPatch::Patched(s) => {
            assert!(s.starts_with("#!/bin/sh"));
            assert!(s.contains("chown 'bob' '/usr/bin/tool'"));
            assert!(!s.contains("chmod"));
        }
        _ => panic!("expected a patched script"),
    }
}

#[test]
fn test_ownership_fixup_with_mode_and_quote_escaping() {
    let entries = vec![FileEntry {
        path: "/opt/o'brien".to_string(),
        info: FileInfo { owner: "bob:staff".to_string(), mode: Some(2541) },
    }];
    match patch_postinst("#!/bin/sh\necho done\n".to_string(), &entries) {
        PostinstPatch::Patched(s) => {
            assert!(s.contains("chown 'bob:staff' '/opt/o'\"'\"'brien'"));
            assert!(s.contains("chmod '2541' '/opt/o'\"'\"'brien'"));
            assert!(s.ends_with("\necho done\n"));
        }
        _ => panic!("expected a patched script"),
    }
}

#[test]
fn test_fixup_refused_on_non_shell_postinst() {
    let entries = vec![FileEntry {
        path: "/x".to_string(),
        info: FileInfo { owner: "bob".to_string(), mode: None },
    }];
    match patch_postinst("#!/usr/bin/perl\nprint\n".to_string(), &entries) {
        PostinstPatch::NotShell(s) => assert_eq!(s, "#!/usr/bin/perl\nprint\n"),
        _ => panic!("expected a refusal"),
    }
}

#[test]
fn test_deb_metadata_contents() {
    let mut info = PackageInfo::default();
    info.name = "tool".to_string();
    info.version = "1.0".to_string();
    info.release = "2".to_string();
    info.arch = "amd64".to_string();
    info.summary = "A tool".to_string();
    info.description = "Body".to_string();
    info.copyright = "MIT".to_string();
    info.changelog = "first".to_string();
    info.dependencies = vec!["lsb".to_string()];
    info.conffiles = vec!["/etc/tool.conf".to_string(), "/opt/tool.rc".to_string()];

    let changelog = deb_changelog(&info, "Jane Doe", "jane@example.org", "Thu, 1 Jan 1970 00:00:00 +0000");
    assert_eq!(
        changelog,
        "tool (1.0-2) experimental; urgency=low\n\n  * Converted from deb format to .deb by alien version 0.1.0\n\n  first\n\n  -- Jane Doe <jane@example.org>  Thu, 1 Jan 1970 00:00:00 +0000\n\n"
    );

    let control = deb_control(&info, "Jane Doe", "jane@example.org");
    assert!(control.starts_with("Source: tool\nSection: alien\nPriority: extra\n"));
    assert!(control.contains("Depends: ${shlibs:Depends}, lsb\n"));
    assert!(control.contains("Description: A tool\nBody\n"));

    // debhelper already manages /etc, so only the other path remains.
    assert_eq!(deb_conffiles(&info).as_deref(), Some("/opt/tool.rc\n"));

    assert_eq!(deb_compat(7), "7\n");
    let rules = deb_rules(false);
    assert!(rules.starts_with("#!/usr/bin/make -f"));
    assert!(rules.contains("#\tdh_fixperms"));
    let rules_fixed = deb_rules(true);
    assert!(rules_fixed.contains("\n\tdh_fixperms"));
}

#[test]
fn test_deb_scripts_selection() {
    let mut info = PackageInfo::default();
    info.scripts.set(xenomorph::Script::BeforeInstall, "#!/bin/sh\ntrue\n".to_string());
    info.scripts.set(xenomorph::Script::AfterUninstall, "   \n".to_string());
    info.use_scripts = true;
    let (files, diag) = deb_script_files(&info);
    assert!(!diag);
    // No postinst (nothing to patch, no body), the preinst carried over,
    // and the blank postrm skipped.
    assert_eq!(files.len(), 1);
    assert_eq!(files[0].name, "preinst");
    assert_eq!(files[0].body, "#!/bin/sh\ntrue\n");
}

#[test]
fn test_control_with_crlf_line_endings() {
    let mut info = PackageInfo::default();
    read_control(&mut info, "Package: tool\r\nVersion: 1.0-2\r\nSection: base\r\n");
    assert_eq!(info.name, "tool");
    assert_eq!(info.version, "1.0");
    assert_eq!(info.release, "2");
    assert_eq!(info.group, "base");
}

#[test]
fn test_description_leading_blank_lines_removed() {
    // A lone blank line leaves only the credit note.
    let out = deb_sanitize_description("\n", Format::Deb);
    assert_eq!(out, " (Converted from a deb package by alien version 0.1.0.)");

    // Leading blank lines vanish; inner ones still become dots.
    let out = deb_sanitize_description("\n\t\nreal\n\nmore", Format::Deb);
    assert_eq!(
        out,
        " real\n .\n more\n .\n (Converted from a deb package by alien version 0.1.0.)"
    );
}

#[test]
fn test_control_depends_split() {
    let mut info = PackageInfo::default();
    read_control(&mut info, "Package: x\nDepends: libc6 (>= 2.0), lsb, zlib1g\n");
    assert_eq!(
        info.dependencies,
        vec!["libc6 (>= 2.0)".to_string(), "lsb".to_string(), "zlib1g".to_string()]
    );

    let mut info = PackageInfo::default();
    read_control(&mut info, "Depends: single\n");
    assert_eq!(info.dependencies, vec!["single".to_string()]);
}
