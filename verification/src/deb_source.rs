//! Reading a Debian source package: the control files fished out of the
//! control member, payload paths normalized to begin with `/`, and the
//! whole package assembled into the canonical model.

use vstd::prelude::*;

use vstd::utf8::{decode_utf8, valid_utf8};

use crate::container::{tar_entries_view, TarEntry, TarEntryS};
use crate::model::PackageInfo;
use crate::outside::bytes_to_string;
use crate::scripts::{spec_deb_name, Script};
use crate::strutil::{
    chars_to_string, push_all, push_str_chars, spec_find_last, spec_lines, spec_starts_with,
    split_lines, starts_with_str, str_to_chars, subvec,
};
use crate::control::{control_fold, read_control, ControlState};
use crate::Format;

verus! {

/// The names of the control files a Debian control member may carry.
pub open spec fn spec_is_control_name(s: Seq<char>) -> bool {
    ||| s == "control"@
    ||| s == "conffiles"@
    ||| s == "postinst"@
    ||| s == "postrm"@
    ||| s == "preinst"@
    ||| s == "prerm"@
}

/// The last path component: everything after the last `/`.
pub open spec fn spec_base_name(s: Seq<char>) -> Seq<char> {
    match spec_find_last(s, '/') {
        Some(i) => s.subrange(i + 1, s.len() as int),
        None => s,
    }
}

/// One control file, by base name.
pub struct ControlFile {
    /// The file's base name.
    pub name: String,
    /// The file's text.
    pub text: String,
}

/// The mathematical value of a control file.
pub struct ControlFileS {
    /// The file's base name.
    pub name: Seq<char>,
    /// The file's text.
    pub text: Seq<char>,
}

impl ControlFile {
    /// The control file a vector element stands for.
    pub open spec fn view_s(self) -> ControlFileS {
        ControlFileS { name: self.name@, text: self.text@ }
    }
}

/// The control files a vector of them stands for.
pub open spec fn control_files_view(fs: Seq<ControlFile>) -> Seq<ControlFileS> {
    Seq::new(fs.len(), |i: int| fs[i].view_s())
}

/// The control files found among the entries of a control member: entries
/// whose base name is one of the control file names, in order. An entry
/// whose path is not UTF-8 matches nothing; a matching entry whose contents
/// are not UTF-8 text fails the whole read.
pub open spec fn spec_control_files(entries: Seq<TarEntryS>) -> Option<Seq<ControlFileS>>
    decreases entries.len(),
{
    if entries.len() == 0 {
        Some(Seq::empty())
    } else {
        let e = entries.first();
        let rest = spec_control_files(entries.drop_first());
        if !valid_utf8(e.name) {
            rest
        } else {
            let base = spec_base_name(decode_utf8(e.name));
            if !spec_is_control_name(base) {
                rest
            } else if !valid_utf8(e.data) {
                None
            } else {
                match rest {
                    None => None,
                    Some(t) => Some(
                        seq![ControlFileS { name: base, text: decode_utf8(e.data) }] + t,
                    ),
                }
            }
        }
    }
}

/// The last path component of a character vector.
pub fn base_name(v: &Vec<char>) -> (r: Vec<char>)
    ensures
        r@ == spec_base_name(v@),
{
    let n = v.len();
    match crate::strutil::rfind_char(v, '/') {
        Some(i) => {
            proof {
                crate::strutil::lemma_find_last(v@, '/');
                assert(i < n);
            }
            subvec(v, i + 1, n)
        },
        None => {
            let r = subvec(v, 0, v.len());
            proof {
                assert(r@ =~= v@);
            }
            r
        },
    }
}

/// Tests whether a name is one of the control file names.
fn is_control_name(v: &Vec<char>) -> (r: bool)
    ensures
        r == spec_is_control_name(v@),
{
    crate::strutil::chars_eq_str(v, "control") || crate::strutil::chars_eq_str(v, "conffiles")
        || crate::strutil::chars_eq_str(v, "postinst") || crate::strutil::chars_eq_str(v, "postrm")
        || crate::strutil::chars_eq_str(v, "preinst") || crate::strutil::chars_eq_str(v, "prerm")
}

/// Collects the control files among the entries of a control member, as
/// [`spec_control_files`] says.
pub fn control_files_from_tar(entries: &Vec<TarEntry>) -> (r: Option<Vec<ControlFile>>)
    ensures
        match r {
            Some(fs) => spec_control_files(tar_entries_view(entries@)) == Some(
                control_files_view(fs@),
            ),
            None => spec_control_files(tar_entries_view(entries@)) is None,
        },
{
    let ghost all = tar_entries_view(entries@);
    let len = entries.len();
    let mut out: Vec<ControlFile> = Vec::new();
    let mut i: usize = 0;
    proof {
        assert(all.skip(0) =~= all);
        assert(control_files_view(out@) =~= Seq::<ControlFileS>::empty());
    }
    while i < len
        invariant
            i <= len,
            len == entries@.len(),
            all == tar_entries_view(entries@),
            spec_control_files(all) == (match spec_control_files(all.skip(i as int)) {
                None => None::<Seq<ControlFileS>>,
                Some(t) => Some(control_files_view(out@) + t),
            }),
        decreases len - i,
    {
        proof {
            assert(all.skip(i as int).first() == all[i as int]);
            assert(all.skip(i as int).drop_first() =~= all.skip(i + 1 as int));
            assert(all[i as int] == entries@[i as int].view_s());
        }
        let e = &entries[i];
        match bytes_to_string(&e.name) {
            None => {},
            Some(name_text) => {
                let base = base_name(&str_to_chars(name_text.as_str()));
                if is_control_name(&base) {
                    match bytes_to_string(&e.data) {
                        None => {
                            return None;
                        },
                        Some(text) => {
                            let ghost prev = out@;
                            let name = chars_to_string(&base);
                            out.push(ControlFile { name, text });
                            proof {
                                let added = ControlFileS {
                                    name: base@,
                                    text: decode_utf8(all[i as int].data),
                                };
                                assert(control_files_view(out@) =~= control_files_view(
                                    prev,
                                ).push(added));
                                assert forall|t: Seq<ControlFileS>| true implies control_files_view(
                                    prev,
                                ) + (seq![added] + t) =~= control_files_view(out@) + t by {}
                            }
                        },
                    }
                }
            },
        }
        i += 1;
    }
    proof {
        assert(all.skip(len as int) =~= Seq::<TarEntryS>::empty());
        assert(control_files_view(out@) + Seq::<ControlFileS>::empty() =~= control_files_view(
            out@,
        ));
    }
    Some(out)
}

/// The text of the last control file with the given name, if any.
pub open spec fn spec_lookup_last(fs: Seq<ControlFileS>, name: Seq<char>) -> Option<Seq<char>>
    decreases fs.len(),
{
    if fs.len() == 0 {
        None
    } else if fs.last().name == name {
        Some(fs.last().text)
    } else {
        spec_lookup_last(fs.drop_last(), name)
    }
}

/// Finds the last control file with the given name.
pub fn lookup_control<'a>(files: &'a Vec<ControlFile>, name: &str) -> (r: Option<&'a String>)
    ensures
        (match r {
            Some(s) => Some(s@),
            None => None,
        }) == spec_lookup_last(control_files_view(files@), name@),
{
    let ghost all = control_files_view(files@);
    let len = files.len();
    let mut i: usize = len;
    proof {
        assert(all.subrange(0, len as int) =~= all);
    }
    while i > 0
        invariant
            i <= len,
            len == files@.len(),
            all == control_files_view(files@),
            spec_lookup_last(all, name@) == spec_lookup_last(all.subrange(0, i as int), name@),
        decreases i,
    {
        i -= 1;
        proof {
            assert(all.subrange(0, i + 1 as int).last() == all[i as int]);
            assert(all.subrange(0, i + 1 as int).drop_last() =~= all.subrange(0, i as int));
            assert(all[i as int] == files@[i as int].view_s());
        }
        if crate::strutil::str_eq(files[i].name.as_str(), name) {
            return Some(&files[i].text);
        }
    }
    None
}

/// A payload path normalized to begin with `/`: a leading `.` component is
/// removed, and a rooted path stays as it is.
pub open spec fn spec_normalize_payload_path(s: Seq<char>) -> Seq<char> {
    let t = if s == "."@ {
        Seq::<char>::empty()
    } else if spec_starts_with(s, "./"@) {
        s.subrange(2, s.len() as int)
    } else {
        s
    };
    if spec_starts_with(t, "/"@) {
        t
    } else {
        "/"@ + t
    }
}

/// Normalizes a payload path to begin with `/`.
pub fn normalize_payload_path(p: &str) -> (r: String)
    ensures
        r@ == spec_normalize_payload_path(p@),
{
    let v = str_to_chars(p);
    let t = if crate::strutil::chars_eq_str(&v, ".") {
        Vec::new()
    } else if starts_with_str(&v, "./") {
        proof {
            reveal_strlit("./");
        }
        subvec(&v, 2, v.len())
    } else {
        v
    };
    if starts_with_str(&t, "/") {
        let r = subvec(&t, 0, t.len());
        proof {
            assert(r@ =~= t@);
        }
        chars_to_string(&r)
    } else {
        let mut out: Vec<char> = Vec::new();
        push_str_chars(&mut out, "/");
        proof {
            assert(Seq::<char>::empty() + "/"@ =~= "/"@);
        }
        push_all(&mut out, &t);
        chars_to_string(&out)
    }
}

/// The lines of a text, one string each.
pub fn lines_as_strings(text: &str) -> (r: Vec<String>)
    ensures
        r.deep_view() == spec_lines(text@),
{
    let chars = str_to_chars(text);
    let lines = split_lines(&chars);
    let len = lines.len();
    let mut out: Vec<String> = Vec::new();
    let mut i: usize = 0;
    proof {
        assert(out.deep_view() =~= spec_lines(text@).subrange(0, 0));
    }
    while i < len
        invariant
            i <= len,
            len == lines@.len(),
            lines.deep_view() == spec_lines(text@),
            out.deep_view() == spec_lines(text@).subrange(0, i as int),
        decreases len - i,
    {
        proof {
            assert(lines.deep_view()[i as int] == lines@[i as int].deep_view());
            assert(lines@[i as int].deep_view() =~= lines@[i as int]@);
        }
        let s = chars_to_string(&lines[i]);
        let ghost prev = out.deep_view();
        let ghost added = s@;
        out.push(s);
        proof {
            assert(added == spec_lines(text@)[i as int]);
            assert(out.deep_view() =~~= prev.push(added));
            assert(prev.push(added) =~= spec_lines(text@).subrange(0, i + 1 as int));
        }
        i += 1;
    }
    proof {
        assert(spec_lines(text@).subrange(0, len as int) =~= spec_lines(text@));
    }
    out
}

/// Each payload path of a sequence, normalized.
pub open spec fn spec_normalized_paths(paths: Seq<Seq<char>>) -> Seq<Seq<char>> {
    Seq::new(paths.len(), |i: int| spec_normalize_payload_path(paths[i]))
}

/// Normalizes every payload path of a vector.
pub fn normalize_all_paths(paths: &Vec<String>) -> (r: Vec<String>)
    ensures
        r.deep_view() == spec_normalized_paths(paths.deep_view()),
{
    let len = paths.len();
    let mut out: Vec<String> = Vec::new();
    let mut i: usize = 0;
    proof {
        assert(out.deep_view() =~= spec_normalized_paths(paths.deep_view()).subrange(0, 0));
    }
    while i < len
        invariant
            i <= len,
            len == paths@.len(),
            out.deep_view() == spec_normalized_paths(paths.deep_view()).subrange(0, i as int),
        decreases len - i,
    {
        proof {
            assert(paths.deep_view()[i as int] == paths@[i as int].deep_view());
            assert(paths@[i as int].deep_view() == paths@[i as int]@);
        }
        let n = normalize_payload_path(paths[i].as_str());
        let ghost prev = out.deep_view();
        let ghost added = n@;
        out.push(n);
        proof {
            assert(added == spec_normalized_paths(paths.deep_view())[i as int]);
            assert(out.deep_view() =~~= prev.push(added));
            assert(prev.push(added) =~= spec_normalized_paths(paths.deep_view()).subrange(
                0,
                i + 1 as int,
            ));
        }
        i += 1;
    }
    proof {
        assert(spec_normalized_paths(paths.deep_view()).subrange(
            0,
            len as int,
        ) =~= spec_normalized_paths(paths.deep_view()));
    }
    out
}

/// Why a Debian source package could not be read.
#[derive(Debug, Clone, Copy, PartialEq, Eq, Structural)]
pub enum DebError {
    /// The control member holds no `control` file.
    MissingControl,
}

/// The empty parse state every control read starts from.
pub open spec fn spec_empty_control_state() -> ControlState {
    ControlState {
        name: Seq::empty(),
        version: Seq::empty(),
        release: Seq::empty(),
        arch: Seq::empty(),
        maintainer: Seq::empty(),
        group: Seq::empty(),
        summary: Seq::empty(),
        description: Seq::empty(),
        depends: Seq::empty(),
        field: Seq::empty(),
    }
}

/// Assembles the canonical model of a Debian package from its control
/// files, the payload paths of its data member, the artifact's path, and an
/// optional architecture override.
///
/// Fails exactly when there is no `control` file. On success the model
/// holds the fields the control file's parse yields; the copyright points
/// into `/usr/share/doc`; an empty section becomes `unknown`; the raw
/// control text is kept as the binary info; conffiles are the lines of the
/// `conffiles` file; payload paths are normalized to begin with `/`; and
/// each lifecycle script is the control file of its Debian-style name;
/// the dependency list is the control file's `Depends` value split on
/// `, `.
pub fn deb_info_from_control_files(
    files: &Vec<ControlFile>,
    data_paths: &Vec<String>,
    file_path: &str,
    target: &Option<String>,
) -> (r: Result<PackageInfo, DebError>)
    ensures
        ({
            let fs = control_files_view(files@);
            match spec_lookup_last(fs, "control"@) {
                None => r == Err::<PackageInfo, DebError>(DebError::MissingControl),
                Some(ctl) => {
                    let st = control_fold(spec_lines(ctl), spec_empty_control_state());
                    &&& r matches Ok(info)
                    &&& info.file@ == file_path@
                    &&& info.name@ == st.name
                    &&& info.version@ == st.version
                    &&& info.release@ == st.release
                    &&& info.arch@ == (match target {
                        Some(t) => t@,
                        None => st.arch,
                    })
                    &&& info.maintainer@ == st.maintainer
                    &&& info.summary@ == st.summary
                    &&& info.description@ == st.description
                    &&& info.group@ == (if st.group.len() == 0 {
                        "unknown"@
                    } else {
                        st.group
                    })
                    &&& info.copyright@ == "see /usr/share/doc/"@ + st.name + "/copyright"@
                    &&& info.binary_info@ == ctl
                    &&& info.distribution@ == "Debian"@
                    &&& info.original_format == Format::Deb
                    &&& info.conffiles.deep_view() == (match spec_lookup_last(fs, "conffiles"@) {
                        Some(cf) => spec_lines(cf),
                        None => Seq::<Seq<char>>::empty(),
                    })
                    &&& info.files.deep_view() == spec_normalized_paths(data_paths.deep_view())
                    &&& forall|k: Script| info.scripts.spec_get(k) == spec_lookup_last(
                        fs,
                        spec_deb_name(k),
                    )
                    &&& info.use_scripts == false
                    &&& info.dependencies.deep_view() == st.depends
                    &&& info.changelog@.len() == 0
                    &&& info.file_info@.len() == 0
                },
            }
        }),
{
    let mut info = PackageInfo::default();
    info.file = file_path.to_owned();
    info.distribution = "Debian".to_owned();
    info.original_format = Format::Deb;
    let control = match lookup_control(files, "control") {
        Some(c) => c.clone(),
        None => {
            return Err(DebError::MissingControl);
        },
    };
    proof {
        assert(info.dependencies.deep_view() =~= Seq::<Seq<char>>::empty());
    }
    read_control(&mut info, control.as_str());
    let mut copyright: Vec<char> = Vec::new();
    push_str_chars(&mut copyright, "see /usr/share/doc/");
    proof {
        assert(Seq::<char>::empty() + "see /usr/share/doc/"@ =~= "see /usr/share/doc/"@);
    }
    push_all(&mut copyright, &str_to_chars(info.name.as_str()));
    push_str_chars(&mut copyright, "/copyright");
    info.copyright = chars_to_string(&copyright);
    if info.group.as_str().unicode_len() == 0 {
        info.group = "unknown".to_owned();
    }
    info.binary_info = control;
    match lookup_control(files, "conffiles") {
        Some(cf) => {
            let cf = cf.clone();
            info.conffiles = lines_as_strings(cf.as_str());
        },
        None => {
            proof {
                assert(info.conffiles.deep_view() =~= Seq::<Seq<char>>::empty());
            }
        },
    }
    info.files = normalize_all_paths(data_paths);
    let ghost fs = control_files_view(files@);
    match lookup_control(files, "preinst") {
        Some(body) => {
            let body = body.clone();
            info.scripts.set(Script::BeforeInstall, body);
        },
        None => {},
    }
    match lookup_control(files, "postinst") {
        Some(body) => {
            let body = body.clone();
            info.scripts.set(Script::AfterInstall, body);
        },
        None => {},
    }
    match lookup_control(files, "prerm") {
        Some(body) => {
            let body = body.clone();
            info.scripts.set(Script::BeforeUninstall, body);
        },
        None => {},
    }
    match lookup_control(files, "postrm") {
        Some(body) => {
            let body = body.clone();
            info.scripts.set(Script::AfterUninstall, body);
        },
        None => {},
    }
    proof {
        assert(info.scripts.spec_get(Script::BeforeInstall) == spec_lookup_last(fs, "preinst"@));
        assert(info.scripts.spec_get(Script::AfterInstall) == spec_lookup_last(fs, "postinst"@));
        assert(info.scripts.spec_get(Script::BeforeUninstall) == spec_lookup_last(fs, "prerm"@));
        assert(info.scripts.spec_get(Script::AfterUninstall) == spec_lookup_last(fs, "postrm"@));
    }
    match target {
        Some(t) => {
            info.arch = t.clone();
        },
        None => {},
    }
    Ok(info)
}

} // verus!
