use xenomorph::Script;

fn all_kinds() -> Vec<Script> {
    vec![
        Script::BeforeInstall,
        Script::AfterInstall,
        Script::BeforeUninstall,
        Script::AfterUninstall,
    ]
}

#[test]
fn test_deb_name_round_trip() {
    for k in all_kinds() {
        assert_eq!(Script::from_deb_name(k.deb_name()), Some(k));
    }
}

#[test]
fn test_rpm_scriptlet_name_round_trip() {
    for k in all_kinds() {
        assert_eq!(Script::from_rpm_scriptlet_name(k.rpm_scriptlet_name()), Some(k));
    }
}

#[test]
fn test_rpm_query_key_round_trip() {
    for k in all_kinds() {
        assert_eq!(Script::from_rpm_query_key(k.rpm_query_key()), Some(k));
    }
}

#[test]
fn test_tgz_script_name_round_trip() {
    for k in all_kinds() {
        assert_eq!(Script::from_tgz_script_name(k.tgz_script_name()), Some(k));
    }
}

#[test]
fn test_pkg_script_name_round_trip() {
    for k in all_kinds() {
        assert_eq!(Script::from_pkg_script_name(k.pkg_script_name()), Some(k));
    }
}

#[test]
fn test_unknown_names_decode_to_none() {
    assert_eq!(Script::from_deb_name("config"), None);
    assert_eq!(Script::from_tgz_script_name("doinst"), None);
    assert_eq!(Script::from_pkg_script_name("checkinstall"), None);
    assert_eq!(Script::from_rpm_scriptlet_name("%verify"), None);
}

#[test]
fn test_names_follow_the_table() {
    assert_eq!(Script::BeforeInstall.deb_name(), "preinst");
    assert_eq!(Script::AfterInstall.rpm_scriptlet_name(), "%post");
    assert_eq!(Script::BeforeUninstall.tgz_script_name(), "predelete.sh");
    assert_eq!(Script::AfterUninstall.pkg_script_name(), "postremove");
    assert_eq!(Script::AfterInstall.rpm_query_key(), "%{POSTIN}");
}
