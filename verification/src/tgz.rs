//! Reading and generating Slackware tgz packages: the tarball has no
//! header metadata, so name and version come from the file name, conffiles
//! are inferred from `/etc/` paths, and scripts live in a conventional
//! `install/` directory that is kept out of the payload.

use vstd::prelude::*;

use vstd::utf8::{decode_utf8, valid_utf8};

use crate::container::{tar_entries_view, TarEntry, TarEntryS};
use crate::deb_source::spec_base_name;
use crate::deb_target::{script_files_view, ScriptFile};
use crate::model::PackageInfo;
use crate::outside::bytes_to_string;
use crate::scripts::{spec_from_tgz_script_name, spec_tgz_script_name, Script};
use crate::strutil::{
    chars_to_string, push_all, push_str_chars, spec_find_last, spec_lower, spec_starts_with,
    spec_trim, str_to_chars, subvec, to_ascii_lower, trim,
};
use crate::Format;

verus! {

/// Recognizes a tgz artifact by its extensions: `.tgz` or `.taz`, or a
/// compression extension over `.tar`.
pub open spec fn spec_tgz_check(path: Seq<char>) -> bool {
    let base = spec_base_name(path);
    match spec_find_last(base, '.') {
        Some(i) => {
            let ext = spec_lower(base.subrange(i + 1, base.len() as int));
            let rest = base.subrange(0, i);
            if ext == "tgz"@ || ext == "taz"@ {
                true
            } else if ext == "gz"@ || ext == "z"@ || ext == "bz"@ || ext == "bz2"@ {
                match spec_find_last(rest, '.') {
                    Some(j) => spec_lower(rest.subrange(j + 1, rest.len() as int)) == "tar"@,
                    None => false,
                }
            } else {
                false
            }
        },
        None => false,
    }
}

/// Recognizes a tgz artifact by its extensions.
pub fn tgz_check_file(path: &str) -> (r: bool)
    ensures
        r == spec_tgz_check(path@),
{
    let chars = str_to_chars(path);
    let base = crate::deb_source::base_name(&chars);
    let blen = base.len();
    match crate::strutil::rfind_char(&base, '.') {
        Some(i) => {
            proof {
                crate::strutil::lemma_find_last(base@, '.');
            }
            let ext = to_ascii_lower(&subvec(&base, i + 1, blen));
            let rest = subvec(&base, 0, i);
            if crate::strutil::chars_eq_str(&ext, "tgz") || crate::strutil::chars_eq_str(
                &ext,
                "taz",
            ) {
                true
            } else if crate::strutil::chars_eq_str(&ext, "gz") || crate::strutil::chars_eq_str(
                &ext,
                "z",
            ) || crate::strutil::chars_eq_str(&ext, "bz") || crate::strutil::chars_eq_str(
                &ext,
                "bz2",
            ) {
                let rlen = rest.len();
                match crate::strutil::rfind_char(&rest, '.') {
                    Some(j) => {
                        proof {
                            crate::strutil::lemma_find_last(rest@, '.');
                        }
                        let ext2 = to_ascii_lower(&subvec(&rest, j + 1, rlen));
                        crate::strutil::chars_eq_str(&ext2, "tar")
                    },
                    None => false,
                }
            } else {
                false
            }
        },
        None => false,
    }
}

/// The name and version a tgz file name implies: the file name without its
/// last extension, split at the last `-`; without one, the whole stem and
/// version `1`.
pub open spec fn spec_tgz_name_version(path: Seq<char>) -> (Seq<char>, Seq<char>) {
    let base = spec_base_name(path);
    let stem = match spec_find_last(base, '.') {
        Some(i) => if i > 0 {
            base.subrange(0, i)
        } else {
            base
        },
        None => base,
    };
    match spec_find_last(stem, '-') {
        Some(i) => (stem.subrange(0, i), stem.subrange(i + 1, stem.len() as int)),
        None => (stem, "1"@),
    }
}

/// Splits a tgz file name into the package name and version.
pub fn tgz_name_version(path: &str) -> (r: (String, String))
    ensures
        (r.0@, r.1@) == spec_tgz_name_version(path@),
{
    let chars = str_to_chars(path);
    let base = crate::deb_source::base_name(&chars);
    let blen = base.len();
    let stem = match crate::strutil::rfind_char(&base, '.') {
        Some(i) => {
            proof {
                crate::strutil::lemma_find_last(base@, '.');
            }
            if i > 0 {
                subvec(&base, 0, i)
            } else {
                base
            }
        },
        None => base,
    };
    let slen = stem.len();
    match crate::strutil::rfind_char(&stem, '-') {
        Some(i) => {
            proof {
                crate::strutil::lemma_find_last(stem@, '-');
            }
            (chars_to_string(&subvec(&stem, 0, i)), chars_to_string(&subvec(&stem, i + 1, slen)))
        },
        None => (chars_to_string(&stem), "1".to_owned()),
    }
}

/// Why a tgz source could not be read.
#[derive(Debug, Clone, Copy, PartialEq, Eq, Structural)]
pub enum TgzError {
    /// An entry's path is not UTF-8, an `/etc/` entry has no readable
    /// mode, or a script's contents are not UTF-8 text.
    BadEntry,
}

/// An entry's path rooted at `/`.
pub open spec fn spec_tgz_path(s: Seq<char>) -> Seq<char> {
    if spec_starts_with(s, "/"@) {
        s
    } else {
        seq!['/'] + s
    }
}

/// What the classification of entries has produced so far.
pub struct TgzState {
    /// Conffiles: regular files under `/etc/`.
    pub conffiles: Seq<Seq<char>>,
    /// Payload paths.
    pub files: Seq<Seq<char>>,
    /// Scripts found under `/install/`, in entry order.
    pub scripts: Seq<(Script, Seq<char>)>,
}

/// How one tar entry extends the state: an `/etc/` file without the
/// directory mode bit is a conffile; an `/install/` entry whose base name
/// is a tgz script name contributes that script and other `/install/`
/// entries are dropped; everything else is payload. An entry with a
/// non-UTF-8 path, an `/etc/` entry without a readable mode, or a script
/// that is not UTF-8 text fails the read.
pub open spec fn spec_tgz_step(st: TgzState, e: TarEntryS) -> Option<TgzState> {
    if !valid_utf8(e.name) {
        None
    } else {
        let p = spec_tgz_path(decode_utf8(e.name));
        if spec_starts_with(p, "/etc/"@) {
            match e.mode {
                None => None,
                Some(m) => if (m / 512) % 2 == 0 {
                    Some(TgzState { conffiles: st.conffiles.push(p), ..st })
                } else {
                    Some(TgzState { files: st.files.push(p), ..st })
                },
            }
        } else if spec_starts_with(p, "/install/"@) {
            match spec_from_tgz_script_name(spec_base_name(p)) {
                Some(k) => if valid_utf8(e.data) {
                    Some(TgzState { scripts: st.scripts.push((k, decode_utf8(e.data))), ..st })
                } else {
                    None
                },
                None => Some(st),
            }
        } else {
            Some(TgzState { files: st.files.push(p), ..st })
        }
    }
}

/// The state after classifying a sequence of entries.
pub open spec fn spec_tgz_fold(entries: Seq<TarEntryS>, st: TgzState) -> Option<TgzState>
    decreases entries.len(),
{
    if entries.len() == 0 {
        Some(st)
    } else {
        match spec_tgz_step(st, entries.first()) {
            None => None,
            Some(st2) => spec_tgz_fold(entries.drop_first(), st2),
        }
    }
}

/// The last script stored under a kind, if any.
pub open spec fn spec_last_script(pairs: Seq<(Script, Seq<char>)>, k: Script) -> Option<
    Seq<char>,
>
    decreases pairs.len(),
{
    if pairs.len() == 0 {
        None
    } else if pairs.last().0 == k {
        Some(pairs.last().1)
    } else {
        spec_last_script(pairs.drop_last(), k)
    }
}

/// The empty classification state.
pub open spec fn spec_tgz_init() -> TgzState {
    TgzState { conffiles: Seq::empty(), files: Seq::empty(), scripts: Seq::empty() }
}

/// What a well-read tgz source looks like, relative to the file name, the
/// host's listing of it, and the classified entries.
pub open spec fn spec_tgz_info_ok(
    info: PackageInfo,
    file: Seq<char>,
    binary_info: Seq<char>,
    st: TgzState,
) -> bool {
    &&& info.file@ == file
    &&& (info.name@, info.version@) == spec_tgz_name_version(file)
    &&& info.release@ == "1"@
    &&& info.arch@ == "all"@
    &&& info.group@ == "unknown"@
    &&& info.summary@ == "Converted tgz package"@
    &&& info.description@ == "Converted tgz package"@
    &&& info.copyright@ == "unknown"@
    &&& info.original_format == Format::Tgz
    &&& info.distribution@ == "Slackware/tarball"@
    &&& info.binary_info@ == binary_info
    &&& info.conffiles.deep_view() == st.conffiles
    &&& info.files.deep_view() == st.files
    &&& (forall|k: Script| info.scripts.spec_get(k) == spec_last_script(st.scripts, k))
    &&& info.use_scripts == false
    &&& info.dependencies@.len() == 0
    &&& info.maintainer@.len() == 0
    &&& info.changelog@.len() == 0
    &&& info.file_info@.len() == 0
}

/// Reads a tgz source into the canonical model: the name and version come
/// from the file name, the payload is classified entry by entry as
/// [`spec_tgz_step`] says, and the remaining fields take the fixed values
/// a headerless tarball gets. The caller passes what the host printed
/// about the file as the binary info.
pub fn tgz_info_from_entries(file: &str, binary_info: &str, entries: &Vec<TarEntry>) -> (r:
    Result<PackageInfo, TgzError>)
    ensures
        match spec_tgz_fold(tar_entries_view(entries@), spec_tgz_init()) {
            None => r == Err::<PackageInfo, TgzError>(TgzError::BadEntry),
            Some(st) => r matches Ok(info) && spec_tgz_info_ok(info, file@, binary_info@, st),
        },
{
    let ghost all = tar_entries_view(entries@);
    let len = entries.len();
    let mut info = PackageInfo::default();
    let ghost init_info = info;
    let mut i: usize = 0;
    let ghost pairs = Seq::<(Script, Seq<char>)>::empty();
    proof {
        assert(all.skip(0) =~= all);
        assert(info.conffiles.deep_view() =~= Seq::<Seq<char>>::empty());
        assert(info.files.deep_view() =~= Seq::<Seq<char>>::empty());
    }
    while i < len
        invariant
            i <= len,
            len == entries@.len(),
            all == tar_entries_view(entries@),
            spec_tgz_fold(all, spec_tgz_init()) == spec_tgz_fold(
                all.skip(i as int),
                TgzState {
                    conffiles: info.conffiles.deep_view(),
                    files: info.files.deep_view(),
                    scripts: pairs,
                },
            ),
            forall|k: Script| info.scripts.spec_get(k) == spec_last_script(pairs, k),
            info == (PackageInfo {
                conffiles: info.conffiles,
                files: info.files,
                scripts: info.scripts,
                ..init_info
            }),
            init_info.use_scripts == false,
            init_info.dependencies@.len() == 0,
            init_info.maintainer@.len() == 0,
            init_info.changelog@.len() == 0,
            init_info.file_info@.len() == 0,
        decreases len - i,
    {
        let ghost st0 = TgzState {
            conffiles: info.conffiles.deep_view(),
            files: info.files.deep_view(),
            scripts: pairs,
        };
        proof {
            assert(all.skip(i as int).first() == all[i as int]);
            assert(all.skip(i as int).drop_first() =~= all.skip(i + 1 as int));
            assert(all[i as int] == entries@[i as int].view_s());
        }
        let e = &entries[i];
        let name_text = match bytes_to_string(&e.name) {
            Some(t) => t,
            None => {
                return Err(TgzError::BadEntry);
            },
        };
        let raw = str_to_chars(name_text.as_str());
        proof {
            reveal_strlit("/");
            reveal_strlit("/etc/");
            reveal_strlit("/install/");
        }
        let p = if crate::strutil::starts_with_str(&raw, "/") {
            raw
        } else {
            let mut p: Vec<char> = Vec::new();
            p.push('/');
            push_all(&mut p, &raw);
            proof {
                assert(p@ =~= seq!['/'] + raw@);
            }
            p
        };
        if crate::strutil::starts_with_str(&p, "/etc/") {
            let m = match e.mode {
                Some(m) => m,
                None => {
                    return Err(TgzError::BadEntry);
                },
            };
            let ghost prev = info.conffiles.deep_view();
            let ghost prevf = info.files.deep_view();
            if (m / 512) % 2 == 0 {
                info.conffiles.push(chars_to_string(&p));
                proof {
                    assert(info.conffiles.deep_view() =~~= prev.push(p@));
                }
            } else {
                info.files.push(chars_to_string(&p));
                proof {
                    assert(info.files.deep_view() =~~= prevf.push(p@));
                }
            }
        } else if crate::strutil::starts_with_str(&p, "/install/") {
            let base = crate::deb_source::base_name(&p);
            let base_str = chars_to_string(&base);
            match Script::from_tgz_script_name(base_str.as_str()) {
                Some(k) => {
                    let content = match bytes_to_string(&e.data) {
                        Some(c) => c,
                        None => {
                            return Err(TgzError::BadEntry);
                        },
                    };
                    let ghost cview = content@;
                    info.scripts.set(k, content);
                    proof {
                        pairs = pairs.push((k, cview));
                        assert(pairs.drop_last() =~= st0.scripts);
                        assert(pairs.last() == (k, cview));
                        assert forall|kk: Script|
                            info.scripts.spec_get(kk) == spec_last_script(pairs, kk) by {
                            if kk == k {
                                assert(spec_last_script(pairs, kk) == Some(cview));
                            } else {
                                assert(spec_last_script(pairs, kk) == spec_last_script(
                                    st0.scripts,
                                    kk,
                                ));
                            }
                        }
                    }
                },
                None => {},
            }
        } else {
            let ghost prevf = info.files.deep_view();
            info.files.push(chars_to_string(&p));
            proof {
                assert(info.files.deep_view() =~~= prevf.push(p@));
            }
        }
        proof {
            let stepped = spec_tgz_step(st0, all[i as int]);
            assert(stepped == Some(
                TgzState {
                    conffiles: info.conffiles.deep_view(),
                    files: info.files.deep_view(),
                    scripts: pairs,
                },
            ));
        }
        i += 1;
    }
    proof {
        assert(all.skip(len as int) =~= Seq::<TarEntryS>::empty());
    }
    let nv = tgz_name_version(file);
    info.file = file.to_owned();
    info.name = nv.0;
    info.version = nv.1;
    info.release = "1".to_owned();
    info.arch = "all".to_owned();
    info.group = "unknown".to_owned();
    info.summary = "Converted tgz package".to_owned();
    info.description = "Converted tgz package".to_owned();
    info.copyright = "unknown".to_owned();
    info.original_format = Format::Tgz;
    info.distribution = "Slackware/tarball".to_owned();
    info.binary_info = binary_info.to_owned();
    Ok(info)
}

/// The script files a tgz target writes under `install/`, each under its
/// tgz-style name, blank scripts skipped; none when scripts are not
/// carried over.
pub open spec fn spec_tgz_scripts(info: PackageInfo) -> Seq<(Seq<char>, Seq<char>)> {
    if info.use_scripts {
        spec_tgz_maybe(info, Script::BeforeInstall) + spec_tgz_maybe(info, Script::AfterInstall)
            + spec_tgz_maybe(info, Script::BeforeUninstall) + spec_tgz_maybe(
            info,
            Script::AfterUninstall,
        )
    } else {
        Seq::empty()
    }
}

/// One optional tgz script file.
pub open spec fn spec_tgz_maybe(info: PackageInfo, k: Script) -> Seq<(Seq<char>, Seq<char>)> {
    match info.scripts.spec_get(k) {
        Some(b) => if spec_trim(b).len() > 0 {
            seq![(spec_tgz_script_name(k), b)]
        } else {
            Seq::empty()
        },
        None => Seq::empty(),
    }
}

/// Selects the script files a tgz target writes, as [`spec_tgz_scripts`]
/// says.
pub fn tgz_script_files(info: &PackageInfo) -> (r: Vec<ScriptFile>)
    ensures
        script_files_view(r@) == spec_tgz_scripts(*info),
{
    let mut out: Vec<ScriptFile> = Vec::new();
    if info.use_scripts {
        tgz_push_script(info, Script::BeforeInstall, &mut out);
        let ghost p1 = script_files_view(out@);
        proof {
            assert(p1 =~= spec_tgz_maybe(*info, Script::BeforeInstall));
        }
        tgz_push_script(info, Script::AfterInstall, &mut out);
        let ghost p2 = script_files_view(out@);
        proof {
            assert(p2 =~= p1 + spec_tgz_maybe(*info, Script::AfterInstall));
        }
        tgz_push_script(info, Script::BeforeUninstall, &mut out);
        let ghost p3 = script_files_view(out@);
        proof {
            assert(p3 =~= p2 + spec_tgz_maybe(*info, Script::BeforeUninstall));
        }
        tgz_push_script(info, Script::AfterUninstall, &mut out);
        proof {
            assert(script_files_view(out@) =~= p3 + spec_tgz_maybe(
                *info,
                Script::AfterUninstall,
            ));
            assert(script_files_view(out@) =~= spec_tgz_scripts(*info));
        }
    } else {
        proof {
            assert(script_files_view(out@) =~= spec_tgz_scripts(*info));
        }
    }
    out
}

/// Appends one script file when the script exists and is not blank.
fn tgz_push_script(info: &PackageInfo, k: Script, out: &mut Vec<ScriptFile>)
    ensures
        script_files_view(final(out)@) == script_files_view(old(out)@) + spec_tgz_maybe(*info, k),
{
    match info.scripts.get(k) {
        Some(b) => {
            let t = trim(&str_to_chars(b.as_str()));
            if t.len() > 0 {
                let ghost prev = script_files_view(out@);
                let body = b.clone();
                let name = k.tgz_script_name().to_owned();
                let ghost added = (name@, body@);
                out.push(ScriptFile { name, body });
                proof {
                    assert(script_files_view(out@) =~= prev.push(added));
                    assert(prev.push(added) =~= prev + spec_tgz_maybe(*info, k));
                }
            } else {
                proof {
                    assert(script_files_view(out@) =~= script_files_view(out@) + spec_tgz_maybe(
                        *info,
                        k,
                    ));
                }
            }
        },
        None => {
            proof {
                assert(script_files_view(out@) =~= script_files_view(out@) + spec_tgz_maybe(
                    *info,
                    k,
                ));
            }
        },
    }
}

/// A source package read from a tgz artifact.
pub struct TgzSource {
    /// The canonical model.
    pub info: PackageInfo,
}

impl TgzSource {
    /// Recognizes a tgz artifact by its extensions.
    pub fn check_file(file: &str) -> (r: bool)
        ensures
            r == spec_tgz_check(file@),
    {
        tgz_check_file(file)
    }

    /// Reads a tgz source, as [`tgz_info_from_entries`] says.
    pub fn new(file: &str, binary_info: &str, entries: &Vec<TarEntry>) -> (r: Result<
        TgzSource,
        TgzError,
    >)
        ensures
            match spec_tgz_fold(tar_entries_view(entries@), spec_tgz_init()) {
                None => r == Err::<TgzSource, TgzError>(TgzError::BadEntry),
                Some(st) => r matches Ok(s) && spec_tgz_info_ok(
                    s.info,
                    file@,
                    binary_info@,
                    st,
                ),
            },
    {
        match tgz_info_from_entries(file, binary_info, entries) {
            Ok(info) => Ok(TgzSource { info }),
            Err(e) => Err(e),
        }
    }
}

/// A single-use generator for the tgz target format: the model and the
/// scripts to place under `install/`.
pub struct TgzTarget {
    /// The model the target is generated from.
    pub info: PackageInfo,
    /// The working directory the payload was unpacked into.
    pub unpacked_dir: String,
    /// The script files to write under `install/`, each to be made
    /// executable.
    pub scripts: Vec<ScriptFile>,
}

impl TgzTarget {
    /// Prepares a tgz target: selects the scripts to write under
    /// `install/`, as [`spec_tgz_scripts`] says.
    pub fn new(info: PackageInfo, unpacked_dir: &str) -> (r: TgzTarget)
        ensures
            r.info == info,
            r.unpacked_dir@ == unpacked_dir@,
            script_files_view(r.scripts@) == spec_tgz_scripts(info),
    {
        let scripts = tgz_script_files(&info);
        TgzTarget { info, unpacked_dir: unpacked_dir.to_owned(), scripts }
    }
}

/// The file name the tgz build step will produce: `name-version.tgz`.
pub open spec fn spec_tgz_output_name(info: PackageInfo) -> Seq<char> {
    info.name@ + "-"@ + info.version@ + ".tgz"@
}

/// The file name the tgz build step will produce.
pub fn tgz_output_name(info: &PackageInfo) -> (r: String)
    ensures
        r@ == spec_tgz_output_name(*info),
{
    let mut out: Vec<char> = Vec::new();
    push_all(&mut out, &str_to_chars(info.name.as_str()));
    proof {
        assert(Seq::<char>::empty() + info.name@ =~= info.name@);
    }
    push_str_chars(&mut out, "-");
    push_all(&mut out, &str_to_chars(info.version.as_str()));
    push_str_chars(&mut out, ".tgz");
    chars_to_string(&out)
}

} // verus!
