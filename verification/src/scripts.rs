//! The four package lifecycle scripts and the names each package format
//! gives them.
//!
//! Every format names the same four hooks differently:
//!
//! | kind             | Debian     | rpm scriptlet | rpm query key | tgz             | pkg           |
//! |------------------|------------|---------------|---------------|-----------------|---------------|
//! | before install   | `preinst`  | `%pre`        | `%{PREIN}`    | `predoinst.sh`  | `preinstall`  |
//! | after install    | `postinst` | `%post`       | `%{POSTIN}`   | `doinst.sh`     | `postinstall` |
//! | before uninstall | `prerm`    | `%preun`      | `%{PREUN}`    | `predelete.sh`  | `preremove`   |
//! | after uninstall  | `postrm`   | `%postun`     | `%{POSTUN}`   | `delete.sh`     | `postremove`  |
//!
//! Each mapping is a pure bidirectional lookup.

use vstd::prelude::*;

use crate::strutil::str_eq;
use crate::Format;

verus! {

/// A script that a package manager runs at one of the four lifecycle points.
#[derive(Debug, Clone, Copy, PartialEq, Eq, Hash, Structural)]
pub enum Script {
    /// Run before install.
    BeforeInstall,
    /// Run after install.
    AfterInstall,
    /// Run before uninstall.
    BeforeUninstall,
    /// Run after uninstall.
    AfterUninstall,
}

/// The Debian-style name of a script kind.
pub open spec fn spec_deb_name(k: Script) -> Seq<char> {
    match k {
        Script::BeforeInstall => "preinst"@,
        Script::AfterInstall => "postinst"@,
        Script::BeforeUninstall => "prerm"@,
        Script::AfterUninstall => "postrm"@,
    }
}

/// The script kind a Debian-style name stands for, if any.
pub open spec fn spec_from_deb_name(s: Seq<char>) -> Option<Script> {
    if s == "preinst"@ {
        Some(Script::BeforeInstall)
    } else if s == "postinst"@ {
        Some(Script::AfterInstall)
    } else if s == "prerm"@ {
        Some(Script::BeforeUninstall)
    } else if s == "postrm"@ {
        Some(Script::AfterUninstall)
    } else {
        None
    }
}

/// The rpm query key of a script kind.
pub open spec fn spec_rpm_query_key(k: Script) -> Seq<char> {
    match k {
        Script::BeforeInstall => "%{PREIN}"@,
        Script::AfterInstall => "%{POSTIN}"@,
        Script::BeforeUninstall => "%{PREUN}"@,
        Script::AfterUninstall => "%{POSTUN}"@,
    }
}

/// The script kind an rpm query key stands for, if any.
pub open spec fn spec_from_rpm_query_key(s: Seq<char>) -> Option<Script> {
    if s == "%{PREIN}"@ {
        Some(Script::BeforeInstall)
    } else if s == "%{POSTIN}"@ {
        Some(Script::AfterInstall)
    } else if s == "%{PREUN}"@ {
        Some(Script::BeforeUninstall)
    } else if s == "%{POSTUN}"@ {
        Some(Script::AfterUninstall)
    } else {
        None
    }
}

/// The rpm scriptlet name of a script kind.
pub open spec fn spec_rpm_scriptlet_name(k: Script) -> Seq<char> {
    match k {
        Script::BeforeInstall => "%pre"@,
        Script::AfterInstall => "%post"@,
        Script::BeforeUninstall => "%preun"@,
        Script::AfterUninstall => "%postun"@,
    }
}

/// The script kind an rpm scriptlet name stands for, if any.
pub open spec fn spec_from_rpm_scriptlet_name(s: Seq<char>) -> Option<Script> {
    if s == "%pre"@ {
        Some(Script::BeforeInstall)
    } else if s == "%post"@ {
        Some(Script::AfterInstall)
    } else if s == "%preun"@ {
        Some(Script::BeforeUninstall)
    } else if s == "%postun"@ {
        Some(Script::AfterUninstall)
    } else {
        None
    }
}

/// The tgz-style script name of a script kind.
pub open spec fn spec_tgz_script_name(k: Script) -> Seq<char> {
    match k {
        Script::BeforeInstall => "predoinst.sh"@,
        Script::AfterInstall => "doinst.sh"@,
        Script::BeforeUninstall => "predelete.sh"@,
        Script::AfterUninstall => "delete.sh"@,
    }
}

/// The script kind a tgz-style script name stands for, if any.
pub open spec fn spec_from_tgz_script_name(s: Seq<char>) -> Option<Script> {
    if s == "predoinst.sh"@ {
        Some(Script::BeforeInstall)
    } else if s == "doinst.sh"@ {
        Some(Script::AfterInstall)
    } else if s == "predelete.sh"@ {
        Some(Script::BeforeUninstall)
    } else if s == "delete.sh"@ {
        Some(Script::AfterUninstall)
    } else {
        None
    }
}

/// The pkg-style script name of a script kind.
pub open spec fn spec_pkg_script_name(k: Script) -> Seq<char> {
    match k {
        Script::BeforeInstall => "preinstall"@,
        Script::AfterInstall => "postinstall"@,
        Script::BeforeUninstall => "preremove"@,
        Script::AfterUninstall => "postremove"@,
    }
}

/// The script kind a pkg-style script name stands for, if any.
pub open spec fn spec_from_pkg_script_name(s: Seq<char>) -> Option<Script> {
    if s == "preinstall"@ {
        Some(Script::BeforeInstall)
    } else if s == "postinstall"@ {
        Some(Script::AfterInstall)
    } else if s == "preremove"@ {
        Some(Script::BeforeUninstall)
    } else if s == "postremove"@ {
        Some(Script::AfterUninstall)
    } else {
        None
    }
}

impl Script {
    /// All four script kinds, in lifecycle order.
    pub fn all() -> (r: Vec<Script>)
        ensures
            r@ == seq![
                Script::BeforeInstall,
                Script::AfterInstall,
                Script::BeforeUninstall,
                Script::AfterUninstall,
            ],
    {
        let mut v: Vec<Script> = Vec::new();
        v.push(Script::BeforeInstall);
        v.push(Script::AfterInstall);
        v.push(Script::BeforeUninstall);
        v.push(Script::AfterUninstall);
        proof {
            assert(v@ =~= seq![
                Script::BeforeInstall,
                Script::AfterInstall,
                Script::BeforeUninstall,
                Script::AfterUninstall,
            ]);
        }
        v
    }

    /// Gets a script kind from its Debian-style name.
    pub fn from_deb_name(s: &str) -> (r: Option<Script>)
        ensures
            r == spec_from_deb_name(s@),
    {
        if str_eq(s, "preinst") {
            Some(Script::BeforeInstall)
        } else if str_eq(s, "postinst") {
            Some(Script::AfterInstall)
        } else if str_eq(s, "prerm") {
            Some(Script::BeforeUninstall)
        } else if str_eq(s, "postrm") {
            Some(Script::AfterUninstall)
        } else {
            None
        }
    }

    /// Returns the script kind's Debian-style name.
    pub fn deb_name(&self) -> (r: &'static str)
        ensures
            r@ == spec_deb_name(*self),
    {
        match self {
            Script::BeforeInstall => "preinst",
            Script::AfterInstall => "postinst",
            Script::BeforeUninstall => "prerm",
            Script::AfterUninstall => "postrm",
        }
    }

    /// Gets a script kind from its rpm query key.
    pub fn from_rpm_query_key(s: &str) -> (r: Option<Script>)
        ensures
            r == spec_from_rpm_query_key(s@),
    {
        if str_eq(s, "%{PREIN}") {
            Some(Script::BeforeInstall)
        } else if str_eq(s, "%{POSTIN}") {
            Some(Script::AfterInstall)
        } else if str_eq(s, "%{PREUN}") {
            Some(Script::BeforeUninstall)
        } else if str_eq(s, "%{POSTUN}") {
            Some(Script::AfterUninstall)
        } else {
            None
        }
    }

    /// Returns the script kind's rpm query key.
    pub fn rpm_query_key(&self) -> (r: &'static str)
        ensures
            r@ == spec_rpm_query_key(*self),
    {
        match self {
            Script::BeforeInstall => "%{PREIN}",
            Script::AfterInstall => "%{POSTIN}",
            Script::BeforeUninstall => "%{PREUN}",
            Script::AfterUninstall => "%{POSTUN}",
        }
    }

    /// Gets a script kind from its rpm scriptlet name.
    pub fn from_rpm_scriptlet_name(s: &str) -> (r: Option<Script>)
        ensures
            r == spec_from_rpm_scriptlet_name(s@),
    {
        if str_eq(s, "%pre") {
            Some(Script::BeforeInstall)
        } else if str_eq(s, "%post") {
            Some(Script::AfterInstall)
        } else if str_eq(s, "%preun") {
            Some(Script::BeforeUninstall)
        } else if str_eq(s, "%postun") {
            Some(Script::AfterUninstall)
        } else {
            None
        }
    }

    /// Returns the script kind's rpm scriptlet name.
    pub fn rpm_scriptlet_name(&self) -> (r: &'static str)
        ensures
            r@ == spec_rpm_scriptlet_name(*self),
    {
        match self {
            Script::BeforeInstall => "%pre",
            Script::AfterInstall => "%post",
            Script::BeforeUninstall => "%preun",
            Script::AfterUninstall => "%postun",
        }
    }

    /// Gets a script kind from its tgz-style script name.
    pub fn from_tgz_script_name(s: &str) -> (r: Option<Script>)
        ensures
            r == spec_from_tgz_script_name(s@),
    {
        if str_eq(s, "predoinst.sh") {
            Some(Script::BeforeInstall)
        } else if str_eq(s, "doinst.sh") {
            Some(Script::AfterInstall)
        } else if str_eq(s, "predelete.sh") {
            Some(Script::BeforeUninstall)
        } else if str_eq(s, "delete.sh") {
            Some(Script::AfterUninstall)
        } else {
            None
        }
    }

    /// Returns the script kind's tgz-style script name.
    pub fn tgz_script_name(&self) -> (r: &'static str)
        ensures
            r@ == spec_tgz_script_name(*self),
    {
        match self {
            Script::BeforeInstall => "predoinst.sh",
            Script::AfterInstall => "doinst.sh",
            Script::BeforeUninstall => "predelete.sh",
            Script::AfterUninstall => "delete.sh",
        }
    }

    /// Gets a script kind from its pkg-style script name.
    pub fn from_pkg_script_name(s: &str) -> (r: Option<Script>)
        ensures
            r == spec_from_pkg_script_name(s@),
    {
        if str_eq(s, "preinstall") {
            Some(Script::BeforeInstall)
        } else if str_eq(s, "postinstall") {
            Some(Script::AfterInstall)
        } else if str_eq(s, "preremove") {
            Some(Script::BeforeUninstall)
        } else if str_eq(s, "postremove") {
            Some(Script::AfterUninstall)
        } else {
            None
        }
    }

    /// Returns the script kind's pkg-style script name.
    pub fn pkg_script_name(&self) -> (r: &'static str)
        ensures
            r@ == spec_pkg_script_name(*self),
    {
        match self {
            Script::BeforeInstall => "preinstall",
            Script::AfterInstall => "postinstall",
            Script::BeforeUninstall => "preremove",
            Script::AfterUninstall => "postremove",
        }
    }
}

/// The on-disk name a format gives a script kind. The two rpm-backed
/// formats use the scriptlet names.
pub open spec fn spec_script_name_for(f: Format, k: Script) -> Seq<char> {
    match f {
        Format::Deb => spec_deb_name(k),
        Format::Lsb => spec_rpm_scriptlet_name(k),
        Format::Rpm => spec_rpm_scriptlet_name(k),
        Format::Tgz => spec_tgz_script_name(k),
        Format::Pkg => spec_pkg_script_name(k),
    }
}

/// The script kind a format's on-disk name stands for, if any.
pub open spec fn spec_script_from_name_for(f: Format, s: Seq<char>) -> Option<Script> {
    match f {
        Format::Deb => spec_from_deb_name(s),
        Format::Lsb => spec_from_rpm_scriptlet_name(s),
        Format::Rpm => spec_from_rpm_scriptlet_name(s),
        Format::Tgz => spec_from_tgz_script_name(s),
        Format::Pkg => spec_from_pkg_script_name(s),
    }
}

/// For every script kind and every format, decoding the name that encoding
/// the kind produced yields the kind back: each name table is a pure
/// bidirectional lookup.
pub proof fn lemma_script_name_round_trip(f: Format, k: Script)
    ensures
        spec_script_from_name_for(f, spec_script_name_for(f, k)) == Some(k),
{
    match f {
        Format::Deb => lemma_deb_name_round_trip(k),
        Format::Lsb => lemma_rpm_scriptlet_name_round_trip(k),
        Format::Rpm => lemma_rpm_scriptlet_name_round_trip(k),
        Format::Tgz => lemma_tgz_script_name_round_trip(k),
        Format::Pkg => lemma_pkg_script_name_round_trip(k),
    }
}

/// Decoding a Debian-style script name that was produced by encoding a script
/// kind yields that kind back.
pub proof fn lemma_deb_name_round_trip(k: Script)
    ensures
        spec_from_deb_name(spec_deb_name(k)) == Some(k),
{
    reveal_strlit("preinst");
    reveal_strlit("postinst");
    reveal_strlit("prerm");
    reveal_strlit("postrm");
    assert("preinst"@.len() == 7);
    assert("postinst"@.len() == 8);
    assert("prerm"@.len() == 5);
    assert("postrm"@.len() == 6);
}

/// Decoding an rpm query key that was produced by encoding a script kind
/// yields that kind back.
pub proof fn lemma_rpm_query_key_round_trip(k: Script)
    ensures
        spec_from_rpm_query_key(spec_rpm_query_key(k)) == Some(k),
{
    reveal_strlit("%{PREIN}");
    reveal_strlit("%{POSTIN}");
    reveal_strlit("%{PREUN}");
    reveal_strlit("%{POSTUN}");
    assert("%{PREIN}"@.len() == 8);
    assert("%{POSTIN}"@.len() == 9);
    assert("%{PREUN}"@[5] == 'U' && "%{PREIN}"@[5] == 'I');
    assert("%{POSTUN}"@[6] == 'U' && "%{POSTIN}"@[6] == 'I');
}

/// Decoding an rpm scriptlet name that was produced by encoding a script kind
/// yields that kind back.
pub proof fn lemma_rpm_scriptlet_name_round_trip(k: Script)
    ensures
        spec_from_rpm_scriptlet_name(spec_rpm_scriptlet_name(k)) == Some(k),
{
    reveal_strlit("%pre");
    reveal_strlit("%post");
    reveal_strlit("%preun");
    reveal_strlit("%postun");
    assert("%pre"@.len() == 4);
    assert("%post"@.len() == 5);
    assert("%preun"@.len() == 6);
    assert("%postun"@.len() == 7);
}

/// Decoding a tgz-style script name that was produced by encoding a script
/// kind yields that kind back.
pub proof fn lemma_tgz_script_name_round_trip(k: Script)
    ensures
        spec_from_tgz_script_name(spec_tgz_script_name(k)) == Some(k),
{
    reveal_strlit("predoinst.sh");
    reveal_strlit("doinst.sh");
    reveal_strlit("predelete.sh");
    reveal_strlit("delete.sh");
    assert("predoinst.sh"@.len() == 12);
    assert("doinst.sh"@.len() == 9);
    assert("predelete.sh"@[4] == 'e' && "predoinst.sh"@[4] == 'o');
    assert("delete.sh"@[1] == 'e' && "doinst.sh"@[1] == 'o');
}

/// Decoding a pkg-style script name that was produced by encoding a script
/// kind yields that kind back.
pub proof fn lemma_pkg_script_name_round_trip(k: Script)
    ensures
        spec_from_pkg_script_name(spec_pkg_script_name(k)) == Some(k),
{
    reveal_strlit("preinstall");
    reveal_strlit("postinstall");
    reveal_strlit("preremove");
    reveal_strlit("postremove");
    assert("preinstall"@.len() == 10);
    assert("postinstall"@.len() == 11);
    assert("preremove"@.len() == 9);
    assert("postremove"@[1] == 'o' && "preinstall"@[1] == 'r');
}

} // verus!
