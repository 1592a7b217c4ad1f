//! Generating an rpm target: the model sanitized to rpm's grammars —
//! non-shell maintainer scripts wrapped in a decoding stub, the version
//! freed of `-`, the architecture translated — and the spec file rendered
//! as text.

use vstd::prelude::*;

use vstd::utf8::encode_utf8;

use crate::model::PackageInfo;
use crate::outside::{base64_encode, base64_of, shell_unescape, unescaped_of};
use crate::scripts::Script;
use crate::strutil::{
    chars_eq_str, chars_to_string, push_all, push_str_chars, spec_lines, spec_starts_with,
    spec_trim, spec_trim_start, split_lines, starts_with_str, str_to_chars, subvec, trim,
    trim_start,
};
use crate::spec_format_name;

verus! {

/// A maintainer script already fit for rpm: blank, or opening with a
/// `/bin/sh` interpreter line.
pub open spec fn spec_rpm_script_ok(s: Seq<char>) -> bool {
    ||| spec_trim(s).len() == 0
    ||| (spec_starts_with(s, "#!"@) && spec_starts_with(
        spec_trim_start(s.subrange(2, s.len() as int)),
        "/bin/sh"@,
    ))
}

/// A script wrapped for rpm: rpm only runs shell, so any other script is
/// base64-encoded into a stub that decodes, runs and removes it.
pub open spec fn spec_rpm_script_stub(s: Seq<char>) -> Seq<char> {
    "#!/bin/sh\nset -e\nmkdir /tmp/alien.$$\necho '"@ + base64_of(encode_utf8(s))
        + "' | base64 -d > /tmp/alien.$$/script\nchmod 755 /tmp/alien.$$/script\n/tmp/alien.$$/script \"$@\"\nrm -f /tmp/alien.$$/script\nrmdir /tmp/alien.$$\n"@
}

/// A maintainer script made fit for rpm: left alone when already fit,
/// wrapped in the decoding stub otherwise.
pub open spec fn spec_rpm_script(s: Seq<char>) -> Seq<char> {
    if spec_rpm_script_ok(s) {
        s
    } else {
        spec_rpm_script_stub(s)
    }
}

/// Makes one maintainer script fit for rpm, as [`spec_rpm_script`] says.
pub fn rpm_wrap_script(s: &str) -> (r: String)
    ensures
        r@ == spec_rpm_script(s@),
{
    let chars = str_to_chars(s);
    let t = trim(&chars);
    if t.len() == 0 {
        return chars_to_string(&chars);
    }
    proof {
        reveal_strlit("#!");
        reveal_strlit("/bin/sh");
    }
    if starts_with_str(&chars, "#!") {
        let rest = trim_start(&subvec(&chars, 2, chars.len()));
        if starts_with_str(&rest, "/bin/sh") {
            return chars_to_string(&chars);
        }
    }
    let encoded = base64_encode(&s.as_bytes_vec());
    let mut out: Vec<char> = Vec::new();
    push_str_chars(&mut out, "#!/bin/sh\nset -e\nmkdir /tmp/alien.$$\necho '");
    proof {
        assert(Seq::<char>::empty() + "#!/bin/sh\nset -e\nmkdir /tmp/alien.$$\necho '"@
            =~= "#!/bin/sh\nset -e\nmkdir /tmp/alien.$$\necho '"@);
    }
    push_all(&mut out, &str_to_chars(encoded.as_str()));
    push_str_chars(
        &mut out,
        "' | base64 -d > /tmp/alien.$$/script\nchmod 755 /tmp/alien.$$/script\n/tmp/alien.$$/script \"$@\"\nrm -f /tmp/alien.$$/script\nrmdir /tmp/alien.$$\n",
    );
    chars_to_string(&out)
}

/// A Debian-style architecture translated to the rpm style. Unknown names
/// pass through unchanged.
pub open spec fn spec_arch_to_rpm(s: Seq<char>) -> Seq<char> {
    if s == "amd64"@ {
        "x86_64"@
    } else if s == "powerpc"@ {
        "ppc"@
    } else if s == "hppa"@ {
        "parisc"@
    } else if s == "all"@ {
        "noarch"@
    } else if s == "ppc64el"@ {
        "ppc64le"@
    } else {
        s
    }
}

/// Translates a Debian-style architecture to the rpm style.
pub fn arch_to_rpm(s: &str) -> (r: String)
    ensures
        r@ == spec_arch_to_rpm(s@),
{
    let v = str_to_chars(s);
    if chars_eq_str(&v, "amd64") {
        "x86_64".to_owned()
    } else if chars_eq_str(&v, "powerpc") {
        "ppc".to_owned()
    } else if chars_eq_str(&v, "hppa") {
        "parisc".to_owned()
    } else if chars_eq_str(&v, "all") {
        "noarch".to_owned()
    } else if chars_eq_str(&v, "ppc64el") {
        "ppc64le".to_owned()
    } else {
        s.to_owned()
    }
}

/// Makes the cloned model legal for the rpm target: every present
/// maintainer script made fit for rpm, the version freed of `-`, the
/// architecture translated.
pub fn rpm_sanitize_info(info: &mut PackageInfo)
    ensures
        *final(info) == (PackageInfo {
            version: final(info).version,
            arch: final(info).arch,
            scripts: final(info).scripts,
            ..*old(info)
        }),
        final(info).version@ == crate::version::spec_rpm_version(old(info).version@),
        final(info).arch@ == spec_arch_to_rpm(old(info).arch@),
        forall|k: Script|
            final(info).scripts.spec_get(k) == (match old(info).scripts.spec_get(k) {
                Some(s) => Some(spec_rpm_script(s)),
                None => None,
            }),
{
    let ghost pre = *info;
    match info.scripts.get(Script::BeforeInstall) {
        Some(s) => {
            let w = rpm_wrap_script(s.as_str());
            info.scripts.set(Script::BeforeInstall, w);
        },
        None => {},
    }
    match info.scripts.get(Script::AfterInstall) {
        Some(s) => {
            let w = rpm_wrap_script(s.as_str());
            info.scripts.set(Script::AfterInstall, w);
        },
        None => {},
    }
    match info.scripts.get(Script::BeforeUninstall) {
        Some(s) => {
            let w = rpm_wrap_script(s.as_str());
            info.scripts.set(Script::BeforeUninstall, w);
        },
        None => {},
    }
    match info.scripts.get(Script::AfterUninstall) {
        Some(s) => {
            let w = rpm_wrap_script(s.as_str());
            info.scripts.set(Script::AfterUninstall, w);
        },
        None => {},
    }
    info.version = crate::version::rpm_sanitize_version(info.version.as_str());
    info.arch = arch_to_rpm(info.arch.as_str());
    proof {
        assert forall|k: Script|
            info.scripts.spec_get(k) == (match pre.scripts.spec_get(k) {
                Some(s) => Some(spec_rpm_script(s)),
                None => None,
            }) by {
            assert(k == Script::BeforeInstall || k == Script::AfterInstall || k
                == Script::BeforeUninstall || k == Script::AfterUninstall);
        }
    }
}

/// One sequence among many.
pub open spec fn spec_seq_contains(ss: Seq<Seq<char>>, x: Seq<char>) -> bool {
    exists|j: int| 0 <= j < ss.len() && ss[j] == x
}

/// Tests whether a list of strings holds the given text.
fn strings_contain(ss: &Vec<String>, x: &Vec<char>) -> (r: bool)
    ensures
        r == spec_seq_contains(ss.deep_view(), x@),
{
    let len = ss.len();
    let mut i: usize = 0;
    while i < len
        invariant
            i <= len,
            len == ss@.len(),
            forall|j: int| 0 <= j < i ==> ss.deep_view()[j] != x@,
        decreases len - i,
    {
        proof {
            assert(ss.deep_view()[i as int] == ss@[i as int].deep_view());
        }
        if chars_eq_str(x, ss[i].as_str()) {
            proof {
                assert(ss.deep_view()[i as int] == x@);
            }
            return true;
        }
        i += 1;
    }
    false
}

/// One payload line of the `%files` section: the unquoted name, marked
/// `%dir` for a directory and `%config` for a conffile, quoted against
/// spaces.
pub open spec fn spec_files_line(unquoted: Seq<char>, conffiles: Seq<Seq<char>>) -> Seq<char> {
    (if unquoted.len() > 0 && unquoted.last() == '/' {
        "%dir "@
    } else if spec_seq_contains(conffiles, unquoted) {
        "%config "@
    } else {
        Seq::<char>::empty()
    }) + seq!['"'] + unquoted + "\"\n"@
}

/// The `%files` section body: each payload path shell-unquoted, marked
/// and quoted; `None` when some name holds a malformed escape.
pub open spec fn spec_files_list(files: Seq<Seq<char>>, conffiles: Seq<Seq<char>>) -> Option<
    Seq<char>,
>
    decreases files.len(),
{
    if files.len() == 0 {
        Some(Seq::empty())
    } else {
        match spec_files_list(files.drop_last(), conffiles) {
            None => None,
            Some(head) => match unescaped_of(files.last()) {
                None => None,
                Some(u) => Some(head + spec_files_line(u, conffiles)),
            },
        }
    }
}

/// Why an rpm target could not be generated.
#[derive(Debug, Clone, Copy, PartialEq, Eq, Structural)]
pub enum RpmTargetError {
    /// A payload file name holds a malformed escape and cannot be
    /// unquoted.
    BadFileName,
}

/// Renders the `%files` section body; fails exactly when some payload name
/// holds a malformed escape, as [`spec_files_list`] says.
pub fn rpm_files_list(files: &Vec<String>, conffiles: &Vec<String>) -> (r: Result<
    Vec<char>,
    RpmTargetError,
>)
    ensures
        match spec_files_list(files.deep_view(), conffiles.deep_view()) {
            Some(content) => r matches Ok(out) && out@ == content,
            None => r == Err::<Vec<char>, RpmTargetError>(RpmTargetError::BadFileName),
        },
{
    let len = files.len();
    let mut out: Vec<char> = Vec::new();
    let mut i: usize = 0;
    proof {
        assert(Some(out@) =~= spec_files_list(
            files.deep_view().subrange(0, 0),
            conffiles.deep_view(),
        ));
    }
    while i < len
        invariant
            i <= len,
            len == files@.len(),
            Some(out@) == spec_files_list(
                files.deep_view().subrange(0, i as int),
                conffiles.deep_view(),
            ),
        decreases len - i,
    {
        proof {
            let fv = files.deep_view();
            assert(fv.subrange(0, i + 1 as int).drop_last() =~= fv.subrange(0, i as int));
            assert(fv.subrange(0, i + 1 as int).last() == fv[i as int]);
            assert(fv[i as int] == files@[i as int].deep_view());
        }
        let unquoted = match shell_unescape(files[i].as_str()) {
            Some(u) => u,
            None => {
                proof {
                    lemma_files_list_prefix_none(
                        files.deep_view(),
                        conffiles.deep_view(),
                        i as int,
                    );
                }
                return Err(RpmTargetError::BadFileName);
            },
        };
        let u = str_to_chars(unquoted.as_str());
        let ghost before = out@;
        if u.len() > 0 && u[u.len() - 1] == '/' {
            push_str_chars(&mut out, "%dir ");
        } else if strings_contain(conffiles, &u) {
            push_str_chars(&mut out, "%config ");
        }
        out.push('"');
        push_all(&mut out, &u);
        push_str_chars(&mut out, "\"\n");
        proof {
            assert(out@ =~= before + spec_files_line(u@, conffiles.deep_view()));
        }
        i += 1;
    }
    proof {
        assert(files.deep_view().subrange(0, len as int) =~= files.deep_view());
    }
    Ok(out)
}

/// A name that fails unescaping fails the whole listing: once some prefix
/// step yields `None`, every longer prefix does.
proof fn lemma_files_list_prefix_none(files: Seq<Seq<char>>, conffiles: Seq<Seq<char>>, i: int)
    requires
        0 <= i < files.len(),
        unescaped_of(files[i]) is None,
    ensures
        spec_files_list(files, conffiles) is None,
    decreases files.len(),
{
    if files.len() > 0 {
        if i == files.len() - 1 {
            assert(files.last() == files[i]);
        } else {
            assert(files.drop_last()[i] == files[i]);
            lemma_files_list_prefix_none(files.drop_last(), conffiles, i);
        }
    }
}

/// A dependency list rendered for a spec file's `Requires:` line: the
/// first entry bare, `, ` before each further one.
pub open spec fn spec_deps_tail(deps: Seq<Seq<char>>) -> Seq<char>
    decreases deps.len(),
{
    if deps.len() == 0 {
        Seq::empty()
    } else if deps.len() == 1 {
        deps.last()
    } else {
        spec_deps_tail(deps.drop_last()) + ", "@ + deps.last()
    }
}

/// The scriptlet sections of the spec file: each present script under its
/// rpm scriptlet name, in lifecycle order, when scripts are carried over.
pub open spec fn spec_rpm_scriptlets(info: PackageInfo) -> Seq<char> {
    if info.use_scripts {
        spec_one_scriptlet(info, Script::BeforeInstall) + spec_one_scriptlet(
            info,
            Script::AfterInstall,
        ) + spec_one_scriptlet(info, Script::BeforeUninstall) + spec_one_scriptlet(
            info,
            Script::AfterUninstall,
        )
    } else {
        Seq::empty()
    }
}

/// One scriptlet section, when the script exists.
pub open spec fn spec_one_scriptlet(info: PackageInfo, k: Script) -> Seq<char> {
    match info.scripts.spec_get(k) {
        Some(s) => crate::scripts::spec_rpm_scriptlet_name(k) + seq!['\n'] + s + "\n\n"@,
        None => Seq::empty(),
    }
}

/// Renders one scriptlet section.
fn one_scriptlet(info: &PackageInfo, k: Script) -> (r: Vec<char>)
    ensures
        r@ == spec_one_scriptlet(*info, k),
{
    let mut out: Vec<char> = Vec::new();
    match info.scripts.get(k) {
        Some(s) => {
            push_str_chars(&mut out, k.rpm_scriptlet_name());
            proof {
                assert(Seq::<char>::empty() + crate::scripts::spec_rpm_scriptlet_name(k)
                    =~= crate::scripts::spec_rpm_scriptlet_name(k));
            }
            out.push('\n');
            push_all(&mut out, &str_to_chars(s.as_str()));
            push_str_chars(&mut out, "\n\n");
        },
        None => {},
    }
    out
}

/// The spec file of an rpm target, given the rendered `%files` section.
pub open spec fn spec_rpm_spec_file(
    info: PackageInfo,
    build_root: Seq<char>,
    files_section: Seq<char>,
) -> Seq<char> {
    "Buildroot: "@ + build_root + "\nName: "@ + info.name@ + "\nVersion: "@ + info.version@
        + "\nRelease: "@ + info.release@ + "\n"@ + (if info.dependencies@.len() > 0 {
        "Requires: "@ + spec_deps_tail(info.dependencies.deep_view())
            + "\n"@
    } else {
        Seq::<char>::empty()
    }) + "Summary: "@ + info.summary@ + "\nLicense: "@ + info.copyright@ + "\nDistribution: "@
        + info.distribution@ + "\nGroup: Converted/"@ + info.group@
        + "\n\n%define _rpmdir ../\n%define _rpmfilename %%{NAME}-%%{VERSION}-%%{RELEASE}.%%{ARCH}.rpm\n%define _unpackaged_files_terminate_build 0\n\n"@
        + spec_rpm_scriptlets(info) + "%description\n"@ + info.description@
        + "\n\n(Converted from a "@ + spec_format_name(info.original_format)
        + " package by alien version "@ + "0.1.0"@ + ".)\n\n%files\n"@ + files_section
}

/// Renders the spec file of an rpm target; fails exactly when some payload
/// file name cannot be unquoted.
pub fn rpm_spec_file(info: &PackageInfo, build_root: &str) -> (r: Result<
    String,
    RpmTargetError,
>)
    ensures
        match spec_files_list(info.files.deep_view(), info.conffiles.deep_view()) {
            Some(fl) => r matches Ok(s) && s@ == spec_rpm_spec_file(*info, build_root@, fl),
            None => r == Err::<String, RpmTargetError>(RpmTargetError::BadFileName),
        },
{
    let files = match rpm_files_list(&info.files, &info.conffiles) {
        Ok(f) => f,
        Err(e) => {
            return Err(e);
        },
    };
    let mut out: Vec<char> = Vec::new();
    push_str_chars(&mut out, "Buildroot: ");
    proof {
        assert(Seq::<char>::empty() + "Buildroot: "@ =~= "Buildroot: "@);
    }
    push_all(&mut out, &str_to_chars(build_root));
    push_str_chars(&mut out, "\nName: ");
    push_all(&mut out, &str_to_chars(info.name.as_str()));
    push_str_chars(&mut out, "\nVersion: ");
    push_all(&mut out, &str_to_chars(info.version.as_str()));
    push_str_chars(&mut out, "\nRelease: ");
    push_all(&mut out, &str_to_chars(info.release.as_str()));
    push_str_chars(&mut out, "\n");
    if info.dependencies.len() > 0 {
        push_str_chars(&mut out, "Requires: ");
        let ghost head = out@;
        push_all(&mut out, &str_to_chars(info.dependencies[0].as_str()));
        proof {
            let dv = info.dependencies.deep_view();
            assert(dv[0] == info.dependencies@[0].deep_view());
            assert(out@ =~= head + spec_deps_tail(dv.subrange(0, 1)));
        }
        let dlen = info.dependencies.len();
        let mut i: usize = 1;
        while i < dlen
            invariant
                1 <= i <= dlen,
                dlen == info.dependencies@.len(),
                out@ == head + spec_deps_tail(
                    info.dependencies.deep_view().subrange(0, i as int),
                ),
            decreases dlen - i,
        {
            proof {
                let dv = info.dependencies.deep_view();
                assert(dv.subrange(0, i + 1 as int).drop_last() =~= dv.subrange(0, i as int));
                assert(dv.subrange(0, i + 1 as int).last() == dv[i as int]);
                assert(dv[i as int] == info.dependencies@[i as int].deep_view());
            }
            push_str_chars(&mut out, ", ");
            push_all(&mut out, &str_to_chars(info.dependencies[i].as_str()));
            i += 1;
        }
        proof {
            let dv = info.dependencies.deep_view();
            assert(dv.subrange(0, dlen as int) =~= dv);
        }
        push_str_chars(&mut out, "\n");
    }
    push_str_chars(&mut out, "Summary: ");
    push_all(&mut out, &str_to_chars(info.summary.as_str()));
    push_str_chars(&mut out, "\nLicense: ");
    push_all(&mut out, &str_to_chars(info.copyright.as_str()));
    push_str_chars(&mut out, "\nDistribution: ");
    push_all(&mut out, &str_to_chars(info.distribution.as_str()));
    push_str_chars(&mut out, "\nGroup: Converted/");
    push_all(&mut out, &str_to_chars(info.group.as_str()));
    push_str_chars(
        &mut out,
        "\n\n%define _rpmdir ../\n%define _rpmfilename %%{NAME}-%%{VERSION}-%%{RELEASE}.%%{ARCH}.rpm\n%define _unpackaged_files_terminate_build 0\n\n",
    );
    if info.use_scripts {
        push_all(&mut out, &one_scriptlet(info, Script::BeforeInstall));
        push_all(&mut out, &one_scriptlet(info, Script::AfterInstall));
        push_all(&mut out, &one_scriptlet(info, Script::BeforeUninstall));
        push_all(&mut out, &one_scriptlet(info, Script::AfterUninstall));
    } else {
        proof {
            assert(out@ + spec_rpm_scriptlets(*info) =~= out@);
        }
    }
    push_str_chars(&mut out, "%description\n");
    push_all(&mut out, &str_to_chars(info.description.as_str()));
    push_str_chars(&mut out, "\n\n(Converted from a ");
    push_str_chars(&mut out, info.original_format.name());
    push_str_chars(&mut out, " package by alien version ");
    push_str_chars(&mut out, crate::deb_target::tool_version());
    push_str_chars(&mut out, ".)\n\n%files\n");
    push_all(&mut out, &files);
    proof {
        assert(out@ =~= spec_rpm_spec_file(*info, build_root@, files@));
    }
    Ok(chars_to_string(&out))
}

/// The file name the rpm build step will produce:
/// `name-version-release.arch.rpm`.
pub open spec fn spec_rpm_output_name(info: PackageInfo) -> Seq<char> {
    info.name@ + "-"@ + info.version@ + "-"@ + info.release@ + "."@ + info.arch@ + ".rpm"@
}

/// The file name the rpm build step will produce.
pub fn rpm_output_name(info: &PackageInfo) -> (r: String)
    ensures
        r@ == spec_rpm_output_name(*info),
{
    let mut out: Vec<char> = Vec::new();
    push_all(&mut out, &str_to_chars(info.name.as_str()));
    proof {
        assert(Seq::<char>::empty() + info.name@ =~= info.name@);
    }
    push_str_chars(&mut out, "-");
    push_all(&mut out, &str_to_chars(info.version.as_str()));
    push_str_chars(&mut out, "-");
    push_all(&mut out, &str_to_chars(info.release.as_str()));
    push_str_chars(&mut out, ".");
    push_all(&mut out, &str_to_chars(info.arch.as_str()));
    push_str_chars(&mut out, ".rpm");
    chars_to_string(&out)
}

/// The spec file's name: `name-version-release.spec`.
pub open spec fn spec_rpm_spec_name(info: PackageInfo) -> Seq<char> {
    info.name@ + "-"@ + info.version@ + "-"@ + info.release@ + ".spec"@
}

/// The spec file's name.
pub fn rpm_spec_name(info: &PackageInfo) -> (r: String)
    ensures
        r@ == spec_rpm_spec_name(*info),
{
    let mut out: Vec<char> = Vec::new();
    push_all(&mut out, &str_to_chars(info.name.as_str()));
    proof {
        assert(Seq::<char>::empty() + info.name@ =~= info.name@);
    }
    push_str_chars(&mut out, "-");
    push_all(&mut out, &str_to_chars(info.version.as_str()));
    push_str_chars(&mut out, "-");
    push_all(&mut out, &str_to_chars(info.release.as_str()));
    push_str_chars(&mut out, ".spec");
    chars_to_string(&out)
}

/// What a well-generated rpm target looks like, relative to the model it
/// was given: the contract of [`RpmTarget::new`]'s success case.
pub open spec fn spec_rpm_target_ok(
    t: RpmTarget,
    info: PackageInfo,
    unpacked_dir: Seq<char>,
    build_root: Seq<char>,
) -> bool {
    &&& t.info == (PackageInfo {
        version: t.info.version,
        arch: t.info.arch,
        scripts: t.info.scripts,
        ..info
    })
    &&& t.info.version@ == crate::version::spec_rpm_version(info.version@)
    &&& t.info.arch@ == spec_arch_to_rpm(info.arch@)
    &&& (forall|k: Script|
        t.info.scripts.spec_get(k) == (match info.scripts.spec_get(k) {
            Some(s) => Some(spec_rpm_script(s)),
            None => None,
        }))
    &&& t.unpacked_dir@ == unpacked_dir
    &&& (match spec_files_list(t.info.files.deep_view(), t.info.conffiles.deep_view()) {
        Some(fl) => t.spec_file@ == spec_rpm_spec_file(t.info, build_root, fl),
        None => false,
    })
}

/// The rpm directory an old build tool prints in its configuration dump:
/// the value of the first line starting with `rpmdir`, leading whitespace
/// and colons stripped. New tools print none, and the build output lands
/// in the working directory instead.
pub open spec fn spec_rpmdir(lines: Seq<Seq<char>>) -> Option<Seq<char>>
    decreases lines.len(),
{
    if lines.len() == 0 {
        None
    } else if spec_starts_with(lines.first(), "rpmdir"@) {
        Some(
            spec_trim_start(
                spec_strip_colons(
                    spec_trim_start(lines.first().subrange(6, lines.first().len() as int)),
                ),
            ),
        )
    } else {
        spec_rpmdir(lines.drop_first())
    }
}

/// Leading colons removed.
pub open spec fn spec_strip_colons(s: Seq<char>) -> Seq<char>
    decreases s.len(),
{
    if s.len() > 0 && s[0] == ':' {
        spec_strip_colons(s.drop_first())
    } else {
        s
    }
}

/// Removes leading colons.
fn strip_colons(v: &Vec<char>) -> (r: Vec<char>)
    ensures
        r@ == spec_strip_colons(v@),
{
    let len = v.len();
    proof {
        assert(v@.subrange(0, len as int) =~= v@);
    }
    let mut i: usize = 0;
    while i < len && v[i] == ':'
        invariant
            i <= len,
            len == v@.len(),
            spec_strip_colons(v@) == spec_strip_colons(v@.subrange(i as int, len as int)),
        decreases len - i,
    {
        proof {
            let rest = v@.subrange(i as int, len as int);
            assert(rest.drop_first() =~= v@.subrange(i + 1 as int, len as int));
        }
        i += 1;
    }
    proof {
        let rest = v@.subrange(i as int, len as int);
        if i < len {
            assert(rest[0] != ':');
        }
        assert(spec_strip_colons(rest) == rest);
    }
    subvec(v, i, len)
}

/// Finds the rpm directory in a configuration dump, as [`spec_rpmdir`]
/// says.
pub fn parse_rpmdir(out: &str) -> (r: Option<String>)
    ensures
        (match r {
            Some(s) => Some(s@),
            None => None,
        }) == spec_rpmdir(spec_lines(out@)),
{
    let chars = str_to_chars(out);
    let lines = split_lines(&chars);
    let ghost all = lines.deep_view();
    let len = lines.len();
    let mut i: usize = 0;
    proof {
        assert(all.skip(0) =~= all);
    }
    while i < len
        invariant
            i <= len,
            len == lines@.len(),
            all == lines.deep_view(),
            all == spec_lines(out@),
            spec_rpmdir(all) == spec_rpmdir(all.skip(i as int)),
        decreases len - i,
    {
        proof {
            assert(all.skip(i as int).first() == all[i as int]);
            assert(all.skip(i as int).drop_first() =~= all.skip(i + 1 as int));
            assert(all[i as int] == lines@[i as int].deep_view());
            assert(lines@[i as int].deep_view() =~= lines@[i as int]@);
            reveal_strlit("rpmdir");
        }
        let line = &lines[i];
        if starts_with_str(line, "rpmdir") {
            let rest = subvec(line, 6, line.len());
            let value = trim_start(&strip_colons(&trim_start(&rest)));
            return Some(chars_to_string(&value));
        }
        i += 1;
    }
    proof {
        assert(all.skip(len as int) =~= Seq::<Seq<char>>::empty());
    }
    None
}

/// A single-use generator for the rpm target format: the sanitized model
/// and the rendered spec file.
pub struct RpmTarget {
    /// The sanitized model the spec file was rendered from.
    pub info: PackageInfo,
    /// The working directory the payload was unpacked into.
    pub unpacked_dir: String,
    /// The rendered spec file.
    pub spec_file: String,
}

impl RpmTarget {
    /// Sanitizes the cloned model for the rpm grammars and renders the
    /// spec file. The caller supplies the absolute build root path.
    ///
    /// Fails exactly when some payload file name cannot be unquoted; the
    /// sanitation touches neither the file list nor the conffiles.
    pub fn new(info: PackageInfo, unpacked_dir: &str, build_root: &str) -> (r: Result<
        RpmTarget,
        RpmTargetError,
    >)
        ensures
            r is Ok <==> spec_files_list(
                info.files.deep_view(),
                info.conffiles.deep_view(),
            ) is Some,
            r matches Err(e) ==> e == RpmTargetError::BadFileName,
            r matches Ok(t) ==> spec_rpm_target_ok(t, info, unpacked_dir@, build_root@),
    {
        let mut info = info;
        rpm_sanitize_info(&mut info);
        let spec_file = match rpm_spec_file(&info, build_root) {
            Ok(s) => s,
            Err(e) => {
                return Err(e);
            },
        };
        Ok(RpmTarget { info, unpacked_dir: unpacked_dir.to_owned(), spec_file })
    }
}

} // verus!
