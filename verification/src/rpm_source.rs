//! Reading an rpm source package: the native query tool's raw answers
//! interpreted into the canonical model, maintainer scripts sanitized to
//! run under a shell, ownership and mode metadata reconciled, and the
//! relocation bookkeeping.
//!
//! Running the query tool, the cpio extraction and every filesystem step
//! stay outside the library; this module interprets what they return.

use vstd::prelude::*;

use crate::model::{FileEntry, FileInfo, PackageInfo, ScriptMap};
use crate::strutil::{
    chars_eq_str, chars_to_string, find_char, find_sub, lemma_find_first, lemma_find_sub,
    parse_u32, push_all, push_str_chars, spec_find_first, spec_find_last, spec_find_sub,
    spec_is_digit, spec_lines, spec_lower, spec_parse_u32, spec_starts_with, spec_trim,
    spec_trim_start, split_lines, split_on_char, starts_with_str, str_to_chars, subvec,
    to_ascii_lower, trim, trim_start,
};
use crate::deb_source::spec_base_name;
use crate::Format;

verus! {

/// The extension of a path: what follows the last `.` of its last
/// component, when that `.` is not the component's first character.
pub open spec fn spec_path_extension(s: Seq<char>) -> Option<Seq<char>> {
    let base = spec_base_name(s);
    match spec_find_last(base, '.') {
        Some(i) => if i == 0 {
            None
        } else {
            Some(base.subrange(i + 1, base.len() as int))
        },
        None => None,
    }
}

/// Tests whether a path carries the given extension, ignoring ASCII case.
pub fn path_has_extension(path: &str, ext: &str) -> (r: bool)
    ensures
        r == (match spec_path_extension(path@) {
            Some(e) => spec_lower(e) == ext@,
            None => false,
        }),
{
    let chars = str_to_chars(path);
    let base = crate::deb_source::base_name(&chars);
    let blen = base.len();
    match crate::strutil::rfind_char(&base, '.') {
        Some(i) => {
            proof {
                crate::strutil::lemma_find_last(base@, '.');
                assert(i < blen);
            }
            if i == 0 {
                false
            } else {
                let e = to_ascii_lower(&subvec(&base, i + 1, blen));
                chars_eq_str(&e, ext)
            }
        },
        None => false,
    }
}

/// The raw answers of the native rpm query tool, one string per queried
/// field, exactly as printed.
pub struct RpmFields {
    /// `%{PREFIXES}`.
    pub prefixes: String,
    /// The conffile listing (`-c`).
    pub conffiles: String,
    /// The file listing (`-l`).
    pub files: String,
    /// The package information dump (`-i`).
    pub binary_info: String,
    /// `%{DESCRIPTION}`.
    pub description: String,
    /// `%{SUMMARY}`.
    pub summary: String,
    /// `%{LICENSE}`.
    pub license: String,
    /// `%{COPYRIGHT}`.
    pub copyright: String,
    /// `%{NAME}`.
    pub name: String,
    /// `%{VERSION}`.
    pub version: String,
    /// `%{RELEASE}`.
    pub release: String,
    /// `%{ARCH}`.
    pub arch: String,
    /// `%{CHANGELOGTEXT}`.
    pub changelog: String,
    /// `%{PREIN}`.
    pub before_install: String,
    /// `%{POSTIN}`.
    pub after_install: String,
    /// `%{PREUN}`.
    pub before_uninstall: String,
    /// `%{POSTUN}`.
    pub after_uninstall: String,
}

/// A queried field's value: the tool prints `(none)` for an absent field.
pub open spec fn spec_field(s: Seq<char>) -> Option<Seq<char>> {
    if s == "(none)"@ {
        None
    } else {
        Some(s)
    }
}

/// Interprets a queried field, `(none)` standing for absence.
pub fn field_value(s: &String) -> (r: Option<String>)
    ensures
        (match r {
            Some(v) => Some(v@),
            None => None,
        }) == spec_field(s@),
{
    if crate::strutil::str_eq(s.as_str(), "(none)") {
        None
    } else {
        Some(s.clone())
    }
}

/// A file listing interpreted: one trimmed path per line, and the marker
/// line `(contains no files)` standing for an empty listing.
pub open spec fn spec_file_list(s: Seq<char>) -> Seq<Seq<char>> {
    let ls = Seq::new(spec_lines(s).len(), |i: int| spec_trim(spec_lines(s)[i]));
    if ls.len() > 0 && ls[0] == "(contains no files)"@ {
        Seq::empty()
    } else {
        ls
    }
}

/// Interprets a file listing, as [`spec_file_list`] says.
pub fn parse_file_list(s: &str) -> (r: Vec<String>)
    ensures
        r.deep_view() == spec_file_list(s@),
{
    let chars = str_to_chars(s);
    let lines = split_lines(&chars);
    let len = lines.len();
    let mut out: Vec<String> = Vec::new();
    let ghost ls = Seq::new(spec_lines(s@).len(), |i: int| spec_trim(spec_lines(s@)[i]));
    let mut i: usize = 0;
    proof {
        assert(out.deep_view() =~= ls.subrange(0, 0));
    }
    while i < len
        invariant
            i <= len,
            len == lines@.len(),
            lines.deep_view() == spec_lines(s@),
            ls == Seq::new(spec_lines(s@).len(), |i: int| spec_trim(spec_lines(s@)[i])),
            out.deep_view() == ls.subrange(0, i as int),
        decreases len - i,
    {
        proof {
            assert(lines.deep_view()[i as int] == lines@[i as int].deep_view());
            assert(lines@[i as int].deep_view() =~= lines@[i as int]@);
        }
        let t = trim(&lines[i]);
        let ghost prev = out.deep_view();
        let ghost added = t@;
        out.push(chars_to_string(&t));
        proof {
            assert(added == ls[i as int]);
            assert(out.deep_view() =~~= prev.push(added));
            assert(prev.push(added) =~= ls.subrange(0, i + 1 as int));
        }
        i += 1;
    }
    proof {
        assert(ls.subrange(0, len as int) =~= ls);
    }
    if out.len() > 0 && crate::strutil::str_eq(out[0].as_str(), "(contains no files)") {
        proof {
            assert(out.deep_view()[0] == out@[0].deep_view());
        }
        let empty: Vec<String> = Vec::new();
        proof {
            assert(empty.deep_view() =~= Seq::<Seq<char>>::empty());
        }
        return empty;
    }
    proof {
        if ls.len() > 0 {
            assert(out.deep_view()[0] == out@[0].deep_view());
        }
    }
    out
}

/// The shell lines that export the relocation prefix to a maintainer
/// script, when the package declares one.
pub open spec fn spec_prefix_code(prefixes: Option<Seq<char>>) -> Seq<char> {
    match prefixes {
        Some(p) => "\nRPM_INSTALL_PREFIX="@ + p + "\nexport RPM_INSTALL_PREFIX"@,
        None => Seq::empty(),
    }
}

/// A maintainer script sanitized for a shell:
///
/// A script that already names an interpreter (`#!`, optional whitespace,
/// an absolute path) has its first `/bin/sh` rewritten to `#!/bin/bash`
/// (the stripped `#!` and whitespace are not restored) and the prefix
/// export inserted before its first line break. Anything else — including
/// an absent script — is prefixed with a `#!/bin/bash` line and the prefix
/// export.
pub open spec fn spec_sanitize_script(prefixes: Option<Seq<char>>, s: Option<Seq<char>>) -> Seq<
    char,
> {
    let code = spec_prefix_code(prefixes);
    let fallback = "#!/bin/bash\n"@ + code + (match s {
        Some(t) => t,
        None => Seq::empty(),
    });
    match s {
        Some(t0) => if spec_starts_with(t0, "#!"@) {
            let t = spec_trim_start(t0.subrange(2, t0.len() as int));
            if t.len() > 0 && t[0] == '/' {
                let rep = match spec_find_sub(t, "/bin/sh"@) {
                    Some(i) => t.subrange(0, i) + "#!/bin/bash"@ + t.subrange(
                        i + 7,
                        t.len() as int,
                    ),
                    None => t,
                };
                match spec_find_first(rep, '\n') {
                    Some(nl) => rep.subrange(0, nl) + code + rep.subrange(nl, rep.len() as int),
                    None => rep,
                }
            } else {
                fallback
            }
        } else {
            fallback
        },
        None => fallback,
    }
}

/// Renders the prefix export lines.
fn prefix_code(prefixes: &Option<String>) -> (r: Vec<char>)
    ensures
        r@ == spec_prefix_code(match prefixes {
            Some(p) => Some(p@),
            None => None,
        }),
{
    let mut out: Vec<char> = Vec::new();
    match prefixes {
        Some(p) => {
            push_str_chars(&mut out, "\nRPM_INSTALL_PREFIX=");
            proof {
                assert(Seq::<char>::empty() + "\nRPM_INSTALL_PREFIX="@
                    =~= "\nRPM_INSTALL_PREFIX="@);
            }
            push_all(&mut out, &str_to_chars(p.as_str()));
            push_str_chars(&mut out, "\nexport RPM_INSTALL_PREFIX");
        },
        None => {},
    }
    out
}

/// Sanitizes a maintainer script for a shell, as [`spec_sanitize_script`]
/// says.
pub fn sanitize_script(prefixes: &Option<String>, s: &Option<String>) -> (r: String)
    ensures
        r@ == spec_sanitize_script(
            match prefixes {
                Some(p) => Some(p@),
                None => None,
            },
            match s {
                Some(t) => Some(t@),
                None => None,
            },
        ),
{
    let code = prefix_code(prefixes);
    match s {
        Some(t0) => {
            let chars = str_to_chars(t0.as_str());
            proof {
                reveal_strlit("#!");
            }
            if starts_with_str(&chars, "#!") {
                let t = trim_start(&subvec(&chars, 2, chars.len()));
                if t.len() > 0 && t[0] == '/' {
                    let rep = match find_sub(&t, "/bin/sh") {
                        Some(i) => {
                            proof {
                                lemma_find_sub(t@, "/bin/sh"@);
                                reveal_strlit("/bin/sh");
                            }
                            let mut rep = subvec(&t, 0, i);
                            push_str_chars(&mut rep, "#!/bin/bash");
                            push_all(&mut rep, &subvec(&t, i + 7, t.len()));
                            rep
                        },
                        None => t,
                    };
                    let out = match find_char(&rep, '\n') {
                        Some(nl) => {
                            proof {
                                lemma_find_first(rep@, '\n');
                            }
                            let mut out = subvec(&rep, 0, nl);
                            push_all(&mut out, &code);
                            push_all(&mut out, &subvec(&rep, nl, rep.len()));
                            out
                        },
                        None => rep,
                    };
                    return chars_to_string(&out);
                }
                let out = fallback_script(&code, s);
                return out;
            }
            let out = fallback_script(&code, s);
            out
        },
        None => fallback_script(&code, s),
    }
}

/// An architecture name given on the command line, translated to the
/// Debian style the model uses. Unknown names pass through unchanged.
pub open spec fn spec_arch_to_deb(s: Seq<char>) -> Seq<char> {
    if s == "1"@ {
        "i386"@
    } else if s == "2"@ {
        "alpha"@
    } else if s == "3"@ {
        "sparc"@
    } else if s == "6"@ {
        "m68k"@
    } else if s == "noarch"@ {
        "all"@
    } else if s == "ppc"@ {
        "powerpc"@
    } else if s == "x86_64"@ || s == "em64t"@ {
        "amd64"@
    } else if s == "armv4l"@ {
        "arm"@
    } else if s == "armv7l"@ {
        "armel"@
    } else if s == "parisc"@ {
        "hppa"@
    } else if s == "ppc64le"@ {
        "ppc64el"@
    } else if spec_lower(s) == "pentium"@ {
        "i386"@
    } else if s.len() == 4 && (s[0] == 'i' || s[0] == 'I') && spec_is_digit(s[1]) && s[2] == '8'
        && s[3] == '6' {
        "i386"@
    } else {
        s
    }
}

/// Translates an architecture name to the Debian style.
pub fn arch_to_deb(s: &str) -> (r: String)
    ensures
        r@ == spec_arch_to_deb(s@),
{
    let v = str_to_chars(s);
    if chars_eq_str(&v, "1") {
        "i386".to_owned()
    } else if chars_eq_str(&v, "2") {
        "alpha".to_owned()
    } else if chars_eq_str(&v, "3") {
        "sparc".to_owned()
    } else if chars_eq_str(&v, "6") {
        "m68k".to_owned()
    } else if chars_eq_str(&v, "noarch") {
        "all".to_owned()
    } else if chars_eq_str(&v, "ppc") {
        "powerpc".to_owned()
    } else if chars_eq_str(&v, "x86_64") || chars_eq_str(&v, "em64t") {
        "amd64".to_owned()
    } else if chars_eq_str(&v, "armv4l") {
        "arm".to_owned()
    } else if chars_eq_str(&v, "armv7l") {
        "armel".to_owned()
    } else if chars_eq_str(&v, "parisc") {
        "hppa".to_owned()
    } else if chars_eq_str(&v, "ppc64le") {
        "ppc64el".to_owned()
    } else if chars_eq_str(&to_ascii_lower(&v), "pentium") {
        "i386".to_owned()
    } else if v.len() == 4 && (v[0] == 'i' || v[0] == 'I') && (v[1] as u32) >= 48 && (v[1] as u32)
        <= 57 && v[2] == '8' && v[3] == '6' {
        "i386".to_owned()
    } else {
        s.to_owned()
    }
}

/// One line of the per-file ownership listing the query tool prints: the
/// numeric mode, the owner and group names, and the path.
pub struct OwnershipLine {
    /// The file's mode, with the file type bits masked off.
    pub mode: u32,
    /// The owning user's name.
    pub owner: String,
    /// The owning group's name.
    pub group: String,
    /// The file's path.
    pub path: String,
}

/// The mathematical value of an ownership line.
pub struct OwnershipLineS {
    /// The file's mode.
    pub mode: u32,
    /// The owning user's name.
    pub owner: Seq<char>,
    /// The owning group's name.
    pub group: Seq<char>,
    /// The file's path.
    pub path: Seq<char>,
}

impl OwnershipLine {
    /// The line a vector element stands for.
    pub open spec fn view_s(self) -> OwnershipLineS {
        OwnershipLineS {
            mode: self.mode,
            owner: self.owner@,
            group: self.group@,
            path: self.path@,
        }
    }
}

/// The lines a vector of them stands for.
pub open spec fn ownership_lines_view(ls: Seq<OwnershipLine>) -> Seq<OwnershipLineS> {
    Seq::new(ls.len(), |i: int| ls[i].view_s())
}

/// What one listing line parses to: skipped when it has fewer than four
/// space-separated fields, an error when its mode is not a number, and
/// otherwise the mode masked to its permission bits.
pub open spec fn spec_ownership_line(line: Seq<char>) -> Option<Option<OwnershipLineS>> {
    let pieces = crate::strutil::spec_split(line, ' ');
    if pieces.len() < 4 {
        Some(None)
    } else {
        match spec_parse_u32(pieces[0]) {
            None => None,
            Some(m) => Some(
                Some(
                    OwnershipLineS {
                        mode: (m % 4096) as u32,
                        owner: pieces[1],
                        group: pieces[2],
                        path: pieces[3],
                    },
                ),
            ),
        }
    }
}

/// The lines of a whole listing; an unparsable mode fails the whole read.
pub open spec fn spec_ownership_lines(lines: Seq<Seq<char>>) -> Option<Seq<OwnershipLineS>>
    decreases lines.len(),
{
    if lines.len() == 0 {
        Some(Seq::empty())
    } else {
        match spec_ownership_line(lines.first()) {
            None => None,
            Some(entry) => match spec_ownership_lines(lines.drop_first()) {
                None => None,
                Some(rest) => match entry {
                    Some(e) => Some(seq![e] + rest),
                    None => Some(rest),
                },
            },
        }
    }
}

/// Parses the per-file ownership listing, as [`spec_ownership_lines`]
/// says; `None` when a mode field is not a number.
pub fn parse_ownership_lines(out: &str) -> (r: Option<Vec<OwnershipLine>>)
    ensures
        match r {
            Some(ls) => spec_ownership_lines(spec_lines(out@)) == Some(ownership_lines_view(ls@)),
            None => spec_ownership_lines(spec_lines(out@)) is None,
        },
{
    let chars = str_to_chars(out);
    let lines = split_lines(&chars);
    let ghost all = lines.deep_view();
    let len = lines.len();
    let mut acc: Vec<OwnershipLine> = Vec::new();
    let mut i: usize = 0;
    proof {
        assert(all.skip(0) =~= all);
        assert(ownership_lines_view(acc@) =~= Seq::<OwnershipLineS>::empty());
    }
    while i < len
        invariant
            i <= len,
            len == lines@.len(),
            all == lines.deep_view(),
            all == spec_lines(out@),
            spec_ownership_lines(all) == (match spec_ownership_lines(all.skip(i as int)) {
                None => None::<Seq<OwnershipLineS>>,
                Some(rest) => Some(ownership_lines_view(acc@) + rest),
            }),
        decreases len - i,
    {
        proof {
            assert(all.skip(i as int).first() == all[i as int]);
            assert(all.skip(i as int).drop_first() =~= all.skip(i + 1 as int));
            assert(all[i as int] == lines@[i as int].deep_view());
            assert(lines@[i as int].deep_view() =~= lines@[i as int]@);
        }
        let pieces = split_on_char(&lines[i], ' ');
        if pieces.len() >= 4 {
            proof {
                assert(pieces.deep_view()[0] == pieces@[0]@);
                assert(pieces.deep_view()[1] == pieces@[1]@);
                assert(pieces.deep_view()[2] == pieces@[2]@);
                assert(pieces.deep_view()[3] == pieces@[3]@);
            }
            let m = match parse_u32(&pieces[0]) {
                Some(m) => m,
                None => {
                    return None;
                },
            };
            let ghost prev = acc@;
            let line = OwnershipLine {
                mode: m % 4096,
                owner: chars_to_string(&pieces[1]),
                group: chars_to_string(&pieces[2]),
                path: chars_to_string(&pieces[3]),
            };
            let ghost added = line.view_s();
            acc.push(line);
            proof {
                assert(ownership_lines_view(acc@) =~= ownership_lines_view(prev).push(added));
                assert forall|rest: Seq<OwnershipLineS>| true implies ownership_lines_view(prev)
                    + (seq![added] + rest) =~= ownership_lines_view(acc@) + rest by {}
            }
        }
        i += 1;
    }
    proof {
        assert(all.skip(len as int) =~= Seq::<Seq<char>>::empty());
        assert(ownership_lines_view(acc@) + Seq::<OwnershipLineS>::empty()
            =~= ownership_lines_view(acc@));
    }
    Some(acc)
}

/// The ownership record one file gets, given whether its owner resolved to
/// a root-equivalent user and its group to the root group on the
/// extracting host.
///
/// A fully resolved file gets no record. Otherwise the record names the
/// unresolved owner, with a `:group` suffix when the group is unresolved
/// too, and keeps the full mode when setuid/setgid/sticky bits are set.
pub open spec fn spec_reconcile(
    line: OwnershipLineS,
    user_is_root: bool,
    group_is_zero: bool,
) -> Option<(Seq<char>, Option<u32>)> {
    let ow = (if user_is_root {
        Seq::<char>::empty()
    } else {
        line.owner
    }) + (if group_is_zero {
        Seq::<char>::empty()
    } else {
        ":"@ + line.group
    });
    if ow.len() == 0 {
        None
    } else {
        Some(
            (
                ow,
                if (line.mode / 512) % 8 > 0 {
                    Some(line.mode)
                } else {
                    None
                },
            ),
        )
    }
}

/// Builds the ownership record of one file, as [`spec_reconcile`] says.
pub fn reconcile_entry(line: &OwnershipLine, user_is_root: bool, group_is_zero: bool) -> (r:
    Option<FileEntry>)
    ensures
        (match r {
            Some(e) => e.path@ == line.path@ && Some((e.info.owner@, e.info.mode))
                == spec_reconcile(line.view_s(), user_is_root, group_is_zero),
            None => spec_reconcile(line.view_s(), user_is_root, group_is_zero) is None,
        }),
{
    let mut ow: Vec<char> = Vec::new();
    if !user_is_root {
        push_all(&mut ow, &str_to_chars(line.owner.as_str()));
        proof {
            assert(Seq::<char>::empty() + line.owner@ =~= line.owner@);
        }
    }
    if !group_is_zero {
        push_str_chars(&mut ow, ":");
        push_all(&mut ow, &str_to_chars(line.group.as_str()));
    }
    proof {
        let spec_ow = (if user_is_root {
            Seq::<char>::empty()
        } else {
            line.owner@
        }) + (if group_is_zero {
            Seq::<char>::empty()
        } else {
            ":"@ + line.group@
        });
        assert(ow@ =~= spec_ow);
    }
    if ow.len() == 0 {
        return None;
    }
    let mode = if (line.mode / 512) % 8 > 0 {
        Some(line.mode)
    } else {
        None
    };
    Some(
        FileEntry {
            path: line.path.clone(),
            info: FileInfo { owner: chars_to_string(&ow), mode },
        },
    )
}

/// The ownership records of a listing, each file paired with its
/// resolution outcome on the extracting host.
pub open spec fn spec_reconcile_all(
    lines: Seq<OwnershipLineS>,
    resolutions: Seq<(bool, bool)>,
) -> Seq<(Seq<char>, (Seq<char>, Option<u32>))>
    decreases lines.len(),
{
    if lines.len() == 0 || resolutions.len() == 0 {
        Seq::empty()
    } else {
        (match spec_reconcile(lines.first(), resolutions.first().0, resolutions.first().1) {
            Some(rec) => seq![(lines.first().path, rec)],
            None => Seq::empty(),
        }) + spec_reconcile_all(lines.drop_first(), resolutions.drop_first())
    }
}

/// The records a vector of file entries stands for.
pub open spec fn file_entries_view(es: Seq<FileEntry>) -> Seq<
    (Seq<char>, (Seq<char>, Option<u32>)),
> {
    Seq::new(es.len(), |i: int| (es[i].path@, (es[i].info.owner@, es[i].info.mode)))
}

/// Builds the ownership records of a whole listing, as
/// [`spec_reconcile_all`] says. The caller pairs each line with whether
/// its owner resolved to a root-equivalent user and its group to the root
/// group.
pub fn reconcile_ownership(lines: &Vec<OwnershipLine>, resolutions: &Vec<(bool, bool)>) -> (r:
    Vec<FileEntry>)
    requires
        lines@.len() == resolutions@.len(),
    ensures
        file_entries_view(r@) == spec_reconcile_all(
            ownership_lines_view(lines@),
            resolutions@,
        ),
{
    let ghost all = ownership_lines_view(lines@);
    let len = lines.len();
    let mut out: Vec<FileEntry> = Vec::new();
    let mut i: usize = 0;
    proof {
        assert(all.skip(0) =~= all);
        assert(resolutions@.skip(0) =~= resolutions@);
        assert(file_entries_view(out@) =~= Seq::<(Seq<char>, (Seq<char>, Option<u32>))>::empty());
    }
    while i < len
        invariant
            i <= len,
            len == lines@.len(),
            len == resolutions@.len(),
            all == ownership_lines_view(lines@),
            file_entries_view(out@) + spec_reconcile_all(
                all.skip(i as int),
                resolutions@.skip(i as int),
            ) == spec_reconcile_all(all, resolutions@),
        decreases len - i,
    {
        proof {
            assert(all.skip(i as int).first() == all[i as int]);
            assert(all.skip(i as int).drop_first() =~= all.skip(i + 1 as int));
            assert(resolutions@.skip(i as int).first() == resolutions@[i as int]);
            assert(resolutions@.skip(i as int).drop_first() =~= resolutions@.skip(i + 1 as int));
            assert(all[i as int] == lines@[i as int].view_s());
        }
        let res = resolutions[i];
        match reconcile_entry(&lines[i], res.0, res.1) {
            Some(e) => {
                let ghost prev = file_entries_view(out@);
                let ghost added = (e.path@, (e.info.owner@, e.info.mode));
                out.push(e);
                proof {
                    assert(file_entries_view(out@) =~= prev.push(added));
                    assert forall|rest: Seq<(Seq<char>, (Seq<char>, Option<u32>))>| true implies
                        prev + (seq![added] + rest) =~= file_entries_view(out@) + rest by {}
                }
            },
            None => {},
        }
        i += 1;
    }
    proof {
        assert(all.skip(len as int) =~= Seq::<OwnershipLineS>::empty());
        assert(file_entries_view(out@) + Seq::<(Seq<char>, (Seq<char>, Option<u32>))>::empty()
            =~= file_entries_view(out@));
    }
    out
}

/// Why an rpm source package could not be read.
#[derive(Debug, Clone, Copy, PartialEq, Eq, Structural)]
pub enum RpmError {
    /// The query tool reported no name.
    MissingName,
    /// The query tool reported no version.
    MissingVersion,
    /// The query tool reported no release.
    MissingRelease,
}

/// The summary used when the queried summary is absent: the description's
/// first line, or a fixed note when that too is empty.
pub open spec fn spec_rpm_summary(summary: Option<Seq<char>>, description: Option<Seq<char>>)
    -> Seq<char> {
    match summary {
        Some(s) => s,
        None => {
            let d = match description {
                Some(d) => d,
                None => Seq::<char>::empty(),
            };
            let first = match spec_find_first(d, '\n') {
                Some(i) => d.subrange(0, i),
                None => d,
            };
            if first.len() == 0 {
                "Converted RPM package"@
            } else {
                first
            }
        },
    }
}

/// The error [`RpmSource::new`] reports, when one is due.
pub open spec fn spec_rpm_source_err(fields: RpmFields) -> Option<RpmError> {
    if spec_field(fields.name@) is None {
        Some(RpmError::MissingName)
    } else if spec_field(fields.version@) is None {
        Some(RpmError::MissingVersion)
    } else if spec_field(fields.release@) is None {
        Some(RpmError::MissingRelease)
    } else {
        None
    }
}

/// The fields of a well-read rpm source that the LSB adapter keeps: every
/// clause of [`RpmSource::new`]'s success case except the four the LSB
/// adapter overrides.
pub open spec fn spec_rpm_core_fields(
    src: RpmSource,
    file: Seq<char>,
    fields: RpmFields,
    target: Option<Seq<char>>,
) -> bool {
    let summary = spec_rpm_summary(spec_field(fields.summary@), spec_field(fields.description@));
    &&& (match src.prefixes {
        Some(p) => Some(p@),
        None => None,
    }) == spec_field(fields.prefixes@)
    &&& src.info.file@ == file
    &&& Some(src.info.name@) == spec_field(fields.name@)
    &&& Some(src.info.version@) == spec_field(fields.version@)
    &&& Some(src.info.release@) == spec_field(fields.release@)
    &&& src.info.arch@ == (match target {
        Some(t) => spec_arch_to_deb(t),
        None => match spec_field(fields.arch@) {
            Some(a) => a,
            None => Seq::<char>::empty(),
        },
    })
    &&& src.info.summary@ == summary
    &&& src.info.description@ == (match spec_field(fields.description@) {
        Some(d) => d,
        None => summary,
    })
    &&& src.info.copyright@ == (match spec_field(fields.license@) {
        Some(l) => l,
        None => match spec_field(fields.copyright@) {
            Some(c) => c,
            None => "unknown"@,
        },
    })
    &&& src.info.changelog@ == (match spec_field(fields.changelog@) {
        Some(c) => c,
        None => Seq::<char>::empty(),
    })
    &&& (forall|k: crate::scripts::Script|
        src.info.scripts.spec_get(k) == Some(
            spec_sanitize_script(
                spec_field(fields.prefixes@),
                spec_field(spec_rpm_script_field(fields, k)),
            ),
        ))
    &&& src.info.conffiles.deep_view() == spec_file_list(fields.conffiles@)
    &&& src.info.files.deep_view() == spec_file_list(fields.files@)
    &&& src.info.binary_info@ == fields.binary_info@
    &&& src.info.maintainer@.len() == 0
    &&& src.info.group@.len() == 0
    &&& src.info.file_info@.len() == 0
}

/// What a well-read rpm source looks like, relative to the raw query
/// answers: the contract of [`RpmSource::new`]'s success case.
pub open spec fn spec_rpm_source_ok(
    src: RpmSource,
    file: Seq<char>,
    fields: RpmFields,
    target: Option<Seq<char>>,
) -> bool {
    &&& spec_rpm_core_fields(src, file, fields, target)
    &&& src.info.distribution@ == "Red Hat"@
    &&& src.info.original_format == Format::Rpm
    &&& src.info.use_scripts == false
    &&& src.info.dependencies@.len() == 0
}

/// A source package read from an rpm artifact: the canonical model and
/// the declared relocation prefix.
pub struct RpmSource {
    /// The canonical model.
    pub info: PackageInfo,
    /// The relocation prefix the package declares, if any.
    pub prefixes: Option<String>,
}

impl RpmSource {
    /// Recognizes an rpm artifact by its file extension.
    pub fn check_file(file: &str) -> (r: bool)
        ensures
            r == (match spec_path_extension(file@) {
                Some(e) => spec_lower(e) == "rpm"@,
                None => false,
            }),
    {
        path_has_extension(file, "rpm")
    }

    /// Interprets the query tool's raw answers into the canonical model.
    ///
    /// Fails exactly when the name, version or release field is absent.
    /// On success: an absent summary falls back to the description's first
    /// line; an absent description falls back to the summary; the
    /// copyright is the license, else the older copyright field, else
    /// `unknown`; every lifecycle script is sanitized for a shell; the
    /// architecture is the override translated to the Debian style when
    /// one is given, else the queried one; and the file listings are
    /// interpreted line by line.
    pub fn new(file: &str, fields: &RpmFields, target: &Option<String>) -> (r: Result<
        RpmSource,
        RpmError,
    >)
        ensures
            spec_field(fields.name@) is None <==> r == Err::<RpmSource, RpmError>(
                RpmError::MissingName,
            ),
            spec_field(fields.name@) is Some && spec_field(fields.version@) is None <==> r
                == Err::<RpmSource, RpmError>(RpmError::MissingVersion),
            spec_field(fields.name@) is Some && spec_field(fields.version@) is Some && spec_field(
                fields.release@,
            ) is None <==> r == Err::<RpmSource, RpmError>(RpmError::MissingRelease),
            r matches Ok(src) ==> spec_rpm_source_ok(src, file@, *fields, match target {
                Some(t) => Some(t@),
                None => None,
            }),
    {
        let name = match field_value(&fields.name) {
            Some(n) => n,
            None => {
                return Err(RpmError::MissingName);
            },
        };
        let version = match field_value(&fields.version) {
            Some(v) => v,
            None => {
                return Err(RpmError::MissingVersion);
            },
        };
        let release = match field_value(&fields.release) {
            Some(v) => v,
            None => {
                return Err(RpmError::MissingRelease);
            },
        };
        let prefixes = field_value(&fields.prefixes);
        let description_opt = field_value(&fields.description);
        let summary = match field_value(&fields.summary) {
            Some(s) => s,
            None => {
                let d = match &description_opt {
                    Some(d) => d.clone(),
                    None => String::new(),
                };
                let chars = str_to_chars(d.as_str());
                let first = match find_char(&chars, '\n') {
                    Some(i) => {
                        proof {
                            lemma_find_first(chars@, '\n');
                        }
                        subvec(&chars, 0, i)
                    },
                    None => chars,
                };
                if first.len() == 0 {
                    "Converted RPM package".to_owned()
                } else {
                    chars_to_string(&first)
                }
            },
        };
        let description = match &description_opt {
            Some(d) => d.clone(),
            None => summary.clone(),
        };
        let copyright = match field_value(&fields.license) {
            Some(l) => l,
            None => match field_value(&fields.copyright) {
                Some(c) => c,
                None => "unknown".to_owned(),
            },
        };
        let mut scripts = ScriptMap::empty();
        scripts.set(
            crate::scripts::Script::BeforeInstall,
            sanitize_script(&prefixes, &field_value(&fields.before_install)),
        );
        scripts.set(
            crate::scripts::Script::AfterInstall,
            sanitize_script(&prefixes, &field_value(&fields.after_install)),
        );
        scripts.set(
            crate::scripts::Script::BeforeUninstall,
            sanitize_script(&prefixes, &field_value(&fields.before_uninstall)),
        );
        scripts.set(
            crate::scripts::Script::AfterUninstall,
            sanitize_script(&prefixes, &field_value(&fields.after_uninstall)),
        );
        let arch = match target {
            Some(t) => arch_to_deb(t.as_str()),
            None => match field_value(&fields.arch) {
                Some(a) => a,
                None => String::new(),
            },
        };
        let changelog = match field_value(&fields.changelog) {
            Some(c) => c,
            None => String::new(),
        };
        let mut info = PackageInfo::default();
        info.file = file.to_owned();
        info.name = name;
        info.version = version;
        info.release = release;
        info.arch = arch;
        info.summary = summary;
        info.description = description;
        info.copyright = copyright;
        info.changelog = changelog;
        info.scripts = scripts;
        info.conffiles = parse_file_list(fields.conffiles.as_str());
        info.files = parse_file_list(fields.files.as_str());
        info.binary_info = fields.binary_info.clone();
        info.distribution = "Red Hat".to_owned();
        info.original_format = Format::Rpm;
        Ok(RpmSource { info, prefixes })
    }
}

/// The raw script field of one kind.
pub open spec fn spec_rpm_script_field(fields: RpmFields, k: crate::scripts::Script) -> Seq<
    char,
> {
    match k {
        crate::scripts::Script::BeforeInstall => fields.before_install@,
        crate::scripts::Script::AfterInstall => fields.after_install@,
        crate::scripts::Script::BeforeUninstall => fields.before_uninstall@,
        crate::scripts::Script::AfterUninstall => fields.after_uninstall@,
    }
}

/// The proper leading parts of a path that end just before an inner `/`.
pub open spec fn spec_slash_prefixes(s: Seq<char>, n: int) -> Seq<Seq<char>>
    decreases n,
{
    if n <= 1 {
        Seq::empty()
    } else {
        spec_slash_prefixes(s, n - 1) + (if s[n - 1] == '/' {
            seq![s.subrange(0, n - 1)]
        } else {
            Seq::empty()
        })
    }
}

/// The intermediate directories of a relocation prefix: every proper
/// leading part that ends just before an inner `/`, shallowest first.
/// These are the directories the relocation walks inside the work
/// directory, creating what is missing; one that the package already
/// ships as a directory is a parent of the relocation target, and the
/// relocation is abandoned. Whether the target directory itself already
/// exists is a separate, prior check.
pub open spec fn spec_prefix_steps(s: Seq<char>) -> Seq<Seq<char>> {
    spec_slash_prefixes(s, s.len() as int)
}

/// Lists the intermediate directories of a relocation prefix.
pub fn prefix_steps(prefix: &str) -> (r: Vec<String>)
    ensures
        r.deep_view() == spec_prefix_steps(prefix@),
{
    let s = str_to_chars(prefix);
    let len = s.len();
    let mut out: Vec<String> = Vec::new();
    proof {
        assert(out.deep_view() =~= spec_slash_prefixes(prefix@, 1));
        if len == 0 {
            assert(out.deep_view() =~= spec_slash_prefixes(prefix@, 0));
        }
    }
    let mut i: usize = 1;
    while i < len
        invariant
            1 <= i <= len || (len == 0 && i == 1),
            len == s@.len(),
            s@ == prefix@,
            out.deep_view() == spec_slash_prefixes(prefix@, i as int),
        decreases len - i,
    {
        if s[i] == '/' {
            let ghost prev = out.deep_view();
            let step = subvec(&s, 0, i);
            let ghost added = step@;
            out.push(chars_to_string(&step));
            proof {
                assert(out.deep_view() =~~= prev.push(added));
                assert(prev.push(added) =~= spec_slash_prefixes(prefix@, i + 1 as int));
            }
        } else {
            proof {
                assert(spec_slash_prefixes(prefix@, i + 1 as int) =~= spec_slash_prefixes(
                    prefix@,
                    i as int,
                ));
            }
        }
        i += 1;
    }
    out
}

/// A conffile path moved under the relocation prefix.
pub open spec fn spec_relocated_conffile(prefix: Seq<char>, c: Seq<char>) -> Seq<char> {
    if spec_starts_with(c, "/"@) {
        prefix + c
    } else {
        prefix + seq!['/'] + c
    }
}

/// Rewrites every conffile path under the relocation prefix, used when
/// relocation succeeded.
pub fn relocate_conffiles(prefix: &str, conffiles: &Vec<String>) -> (r: Vec<String>)
    ensures
        r.deep_view() == Seq::new(
            conffiles.deep_view().len(),
            |i: int| spec_relocated_conffile(prefix@, conffiles.deep_view()[i]),
        ),
{
    let ghost goal = Seq::new(
        conffiles.deep_view().len(),
        |i: int| spec_relocated_conffile(prefix@, conffiles.deep_view()[i]),
    );
    let len = conffiles.len();
    let mut out: Vec<String> = Vec::new();
    let mut i: usize = 0;
    proof {
        assert(out.deep_view() =~= goal.subrange(0, 0));
    }
    while i < len
        invariant
            i <= len,
            len == conffiles@.len(),
            goal == Seq::new(
                conffiles.deep_view().len(),
                |i: int| spec_relocated_conffile(prefix@, conffiles.deep_view()[i]),
            ),
            out.deep_view() == goal.subrange(0, i as int),
        decreases len - i,
    {
        proof {
            assert(conffiles.deep_view()[i as int] == conffiles@[i as int].deep_view());
        }
        let c = str_to_chars(conffiles[i].as_str());
        let mut p = str_to_chars(prefix);
        proof {
            reveal_strlit("/");
        }
        if !starts_with_str(&c, "/") {
            p.push('/');
        }
        push_all(&mut p, &c);
        let ghost prev = out.deep_view();
        let ghost added = p@;
        out.push(chars_to_string(&p));
        proof {
            assert(added == goal[i as int]);
            assert(out.deep_view() =~~= prev.push(added));
            assert(prev.push(added) =~= goal.subrange(0, i + 1 as int));
        }
        i += 1;
    }
    proof {
        assert(goal.subrange(0, len as int) =~= goal);
    }
    out
}

/// Renders the fallback: a `#!/bin/bash` line, the prefix export, and the
/// original script text, if any.
fn fallback_script(code: &Vec<char>, s: &Option<String>) -> (r: String)
    ensures
        r@ == "#!/bin/bash\n"@ + code@ + (match s {
            Some(t) => t@,
            None => Seq::<char>::empty(),
        }),
{
    let mut out: Vec<char> = Vec::new();
    push_str_chars(&mut out, "#!/bin/bash\n");
    proof {
        assert(Seq::<char>::empty() + "#!/bin/bash\n"@ =~= "#!/bin/bash\n"@);
    }
    push_all(&mut out, code);
    match s {
        Some(t) => {
            push_all(&mut out, &str_to_chars(t.as_str()));
        },
        None => {},
    }
    chars_to_string(&out)
}

} // verus!
