//! Reading and generating Solaris pkg packages: the two flat text tables
//! (`pkginfo` and `pkgmap`) parsed into the canonical model, and the
//! `pkginfo` file of a pkg target rendered back out.
//!
//! Running the native transformation tool and every filesystem step stay
//! outside the library.

use vstd::prelude::*;

use crate::model::PackageInfo;
use crate::scripts::{spec_from_pkg_script_name, Script};
use crate::strutil::{
    chars_eq_str, chars_to_string, find_char, lemma_find_first, push_all, push_str_chars,
    spec_find_first, spec_lines, spec_split, split_lines, split_on_char, starts_with_str,
    str_to_chars, subvec,
};
use crate::Format;

verus! {

/// Why a Solaris pkg source could not be read.
#[derive(Debug, Clone, Copy, PartialEq, Eq, Structural)]
pub enum PkgError {
    /// The `pkginfo` table has no `ARCH` field.
    MissingArch,
    /// The `pkginfo` table has no `VERSION` field.
    MissingVersion,
}

/// The key a `pkginfo` line's value belongs to: its own key when the line
/// holds `=`, else the key of the nearest earlier line that does.
pub open spec fn spec_effective_key(lines: Seq<Seq<char>>, i: int) -> Seq<char>
    decreases i,
{
    if i < 0 || i >= lines.len() {
        Seq::empty()
    } else {
        match spec_find_first(lines[i], '=') {
            Some(j) => lines[i].subrange(0, j),
            None => if i == 0 {
                Seq::empty()
            } else {
                spec_effective_key(lines, i - 1)
            },
        }
    }
}

/// The value a `pkginfo` line carries: what follows `=`, or the whole
/// line.
pub open spec fn spec_line_value(line: Seq<char>) -> Seq<char> {
    match spec_find_first(line, '=') {
        Some(j) => line.subrange(j + 1, line.len() as int),
        None => line,
    }
}

/// The value stored under a key: later lines overwrite earlier ones.
pub open spec fn spec_pkginfo_value(lines: Seq<Seq<char>>, n: int, key: Seq<char>) -> Option<
    Seq<char>,
>
    decreases n,
{
    if n <= 0 || n > lines.len() {
        None
    } else if spec_effective_key(lines, n - 1) == key {
        Some(spec_line_value(lines[n - 1]))
    } else {
        spec_pkginfo_value(lines, n - 1, key)
    }
}

/// Finds the key a line's value belongs to.
fn effective_key(lines: &Vec<Vec<char>>, i: usize) -> (r: Vec<char>)
    requires
        i < lines@.len(),
    ensures
        r@ == spec_effective_key(lines.deep_view(), i as int),
    decreases i,
{
    proof {
        assert(lines.deep_view()[i as int] == lines@[i as int].deep_view());
        assert(lines@[i as int].deep_view() =~= lines@[i as int]@);
    }
    match find_char(&lines[i], '=') {
        Some(j) => {
            proof {
                lemma_find_first(lines@[i as int]@, '=');
            }
            subvec(&lines[i], 0, j)
        },
        None => {
            if i == 0 {
                Vec::new()
            } else {
                effective_key(lines, i - 1)
            }
        },
    }
}

/// Reads the value a line carries.
fn line_value(line: &Vec<char>) -> (r: Vec<char>)
    ensures
        r@ == spec_line_value(line@),
{
    let n = line.len();
    match find_char(line, '=') {
        Some(j) => {
            proof {
                lemma_find_first(line@, '=');
            }
            subvec(line, j + 1, n)
        },
        None => {
            let r = subvec(line, 0, n);
            proof {
                assert(r@ =~= line@);
            }
            r
        },
    }
}

/// Looks a key up in a `pkginfo` table, later lines overwriting earlier
/// ones.
fn pkginfo_lookup(lines: &Vec<Vec<char>>, n: usize, key: &str) -> (r: Option<Vec<char>>)
    requires
        n <= lines@.len(),
    ensures
        (match r {
            Some(v) => Some(v@),
            None => None,
        }) == spec_pkginfo_value(lines.deep_view(), n as int, key@),
    decreases n,
{
    if n == 0 {
        return None;
    }
    let k = effective_key(lines, n - 1);
    if chars_eq_str(&k, key) {
        proof {
            assert(lines.deep_view()[n - 1] == lines@[n - 1 as int].deep_view());
            assert(lines@[n - 1 as int].deep_view() =~= lines@[n - 1 as int]@);
        }
        Some(line_value(&lines[n - 1]))
    } else {
        pkginfo_lookup(lines, n - 1, key)
    }
}

/// The value with every leading and trailing `"` removed.
pub open spec fn spec_trim_quotes(s: Seq<char>) -> Seq<char> {
    spec_trim_quotes_start(spec_trim_quotes_end(s))
}

/// Leading quotes removed.
pub open spec fn spec_trim_quotes_start(s: Seq<char>) -> Seq<char>
    decreases s.len(),
{
    if s.len() > 0 && s[0] == '"' {
        spec_trim_quotes_start(s.drop_first())
    } else {
        s
    }
}

/// Trailing quotes removed.
pub open spec fn spec_trim_quotes_end(s: Seq<char>) -> Seq<char>
    decreases s.len(),
{
    if s.len() > 0 && s.last() == '"' {
        spec_trim_quotes_end(s.drop_last())
    } else {
        s
    }
}

/// Removes the quotes around a `pkginfo` value.
fn trim_quotes(v: &Vec<char>) -> (r: Vec<char>)
    ensures
        r@ == spec_trim_quotes(v@),
{
    let len = v.len();
    proof {
        assert(v@.subrange(0, len as int) =~= v@);
    }
    let mut j: usize = len;
    while j > 0 && v[j - 1] == '"'
        invariant
            j <= len,
            len == v@.len(),
            spec_trim_quotes_end(v@) == spec_trim_quotes_end(v@.subrange(0, j as int)),
        decreases j,
    {
        proof {
            let rest = v@.subrange(0, j as int);
            assert(rest.drop_last() =~= v@.subrange(0, j - 1 as int));
        }
        j -= 1;
    }
    proof {
        let rest = v@.subrange(0, j as int);
        if j > 0 {
            assert(rest.last() != '"');
        }
        assert(spec_trim_quotes_end(rest) == rest);
    }
    let e = subvec(v, 0, j);
    proof {
        assert(e@.subrange(0, e@.len() as int) =~= e@);
    }
    let elen = e.len();
    let mut i: usize = 0;
    while i < elen && e[i] == '"'
        invariant
            i <= elen,
            elen == e@.len(),
            spec_trim_quotes_start(e@) == spec_trim_quotes_start(
                e@.subrange(i as int, elen as int),
            ),
        decreases elen - i,
    {
        proof {
            let rest = e@.subrange(i as int, elen as int);
            assert(rest.drop_first() =~= e@.subrange(i + 1 as int, elen as int));
        }
        i += 1;
    }
    proof {
        let rest = e@.subrange(i as int, elen as int);
        if i < elen {
            assert(rest[0] != '"');
        }
        assert(spec_trim_quotes_start(rest) == rest);
    }
    subvec(&e, i, elen)
}

/// Reads a `pkginfo` table into the model: the quoted `ARCH`, `VERSION`
/// and `DESC` values fill the architecture, version and description, an
/// absent `DESC` leaving the description empty. Fails exactly when `ARCH`
/// or `VERSION` is absent; no other field changes.
pub fn parse_pkg_info(info: &mut PackageInfo, content: &str) -> (r: Result<(), PkgError>)
    ensures
        ({
            let lines = spec_lines(content@);
            let n = lines.len() as int;
            match spec_pkginfo_value(lines, n, "ARCH"@) {
                None => r == Err::<(), PkgError>(PkgError::MissingArch) && *final(info) == *old(
                    info,
                ),
                Some(arch) => match spec_pkginfo_value(lines, n, "VERSION"@) {
                    None => r == Err::<(), PkgError>(PkgError::MissingVersion) && *final(info)
                        == *old(info),
                    Some(version) => {
                        &&& r is Ok
                        &&& *final(info) == (PackageInfo {
                            arch: final(info).arch,
                            version: final(info).version,
                            description: final(info).description,
                            ..*old(info)
                        })
                        &&& final(info).arch@ == spec_trim_quotes(arch)
                        &&& final(info).version@ == spec_trim_quotes(version)
                        &&& final(info).description@ == (match spec_pkginfo_value(
                            lines,
                            n,
                            "DESC"@,
                        ) {
                            Some(d) => spec_trim_quotes(d),
                            None => Seq::<char>::empty(),
                        })
                    },
                },
            }
        }),
{
    let chars = str_to_chars(content);
    let lines = split_lines(&chars);
    let n = lines.len();
    let arch = match pkginfo_lookup(&lines, n, "ARCH") {
        Some(a) => a,
        None => {
            return Err(PkgError::MissingArch);
        },
    };
    let version = match pkginfo_lookup(&lines, n, "VERSION") {
        Some(v) => v,
        None => {
            return Err(PkgError::MissingVersion);
        },
    };
    info.arch = chars_to_string(&trim_quotes(&arch));
    info.version = chars_to_string(&trim_quotes(&version));
    match pkginfo_lookup(&lines, n, "DESC") {
        Some(d) => {
            info.description = chars_to_string(&trim_quotes(&d));
        },
        None => {
            info.description = String::new();
        },
    }
    Ok(())
}

/// A lifecycle script named by a `pkgmap` entry; its contents sit in a
/// file the caller must read.
pub struct PkgScriptRef {
    /// The script kind.
    pub kind: Script,
    /// The path of the file holding the script, relative to the artifact.
    pub path: String,
}

/// The references a vector of them stands for.
pub open spec fn pkg_script_refs_view(rs: Seq<PkgScriptRef>) -> Seq<(Script, Seq<char>)> {
    Seq::new(rs.len(), |i: int| (rs[i].kind, rs[i].path@))
}

/// What one `pkgmap` line contributes: a conffile, a payload path, a
/// script reference, or nothing. Only part `1` entries count.
pub open spec fn spec_pkgmap_line(line: Seq<char>) -> (Seq<Seq<char>>, Seq<Seq<char>>, Seq<
    (Script, Seq<char>),
>) {
    let pieces = spec_split(line, ' ');
    if pieces.len() < 4 || pieces[0] != "1"@ {
        (Seq::empty(), Seq::empty(), Seq::empty())
    } else {
        let ftype = pieces[1];
        let path = pieces[3];
        if ftype == "f"@ && crate::strutil::spec_starts_with(path, "etc/"@) {
            (seq![seq!['/'] + path], Seq::empty(), Seq::empty())
        } else if ftype == "f"@ || ftype == "d"@ {
            (Seq::empty(), seq![path], Seq::empty())
        } else if ftype == "i"@ {
            match spec_from_pkg_script_name(path) {
                Some(k) => (Seq::empty(), Seq::empty(), seq![(k, path)]),
                None => (Seq::empty(), Seq::empty(), Seq::empty()),
            }
        } else {
            (Seq::empty(), Seq::empty(), Seq::empty())
        }
    }
}

/// What a `pkgmap` text contributes, its preamble line skipped.
pub open spec fn spec_pkgmap_of(content: Seq<char>) -> (Seq<Seq<char>>, Seq<Seq<char>>, Seq<
    (Script, Seq<char>),
>) {
    let lines = spec_lines(content);
    if lines.len() == 0 {
        (Seq::empty(), Seq::empty(), Seq::empty())
    } else {
        spec_pkgmap(lines.drop_first())
    }
}

/// What a whole `pkgmap` table contributes, the preamble line skipped.
pub open spec fn spec_pkgmap(lines: Seq<Seq<char>>) -> (Seq<Seq<char>>, Seq<Seq<char>>, Seq<
    (Script, Seq<char>),
>)
    decreases lines.len(),
{
    if lines.len() == 0 {
        (Seq::empty(), Seq::empty(), Seq::empty())
    } else {
        let first = spec_pkgmap_line(lines.first());
        let rest = spec_pkgmap(lines.drop_first());
        (first.0 + rest.0, first.1 + rest.1, first.2 + rest.2)
    }
}

/// Reads a `pkgmap` table: part `1` file entries under `etc/` become
/// conffiles rooted at `/`, other file and directory entries become
/// payload paths, and install-class entries whose name is a pkg script
/// name are returned for the caller to read. Other fields of the model
/// keep their value.
pub fn parse_pkg_map(info: &mut PackageInfo, content: &str) -> (r: Vec<PkgScriptRef>)
    ensures
        ({
            let effects = spec_pkgmap_of(content@);
            &&& *final(info) == (PackageInfo {
                conffiles: final(info).conffiles,
                files: final(info).files,
                ..*old(info)
            })
            &&& final(info).conffiles.deep_view() == old(info).conffiles.deep_view() + effects.0
            &&& final(info).files.deep_view() == old(info).files.deep_view() + effects.1
            &&& pkg_script_refs_view(r@) == effects.2
        }),
{
    let chars = str_to_chars(content);
    let lines = split_lines(&chars);
    let ghost all0 = lines.deep_view();
    let ghost all = if all0.len() == 0 {
        Seq::<Seq<char>>::empty()
    } else {
        all0.drop_first()
    };
    let mut scripts: Vec<PkgScriptRef> = Vec::new();
    let len = lines.len();
    let mut i: usize = 1;
    proof {
        assert(all.skip(0) =~= all);
        assert(info.conffiles.deep_view() + Seq::<Seq<char>>::empty()
            =~= info.conffiles.deep_view());
        assert(info.files.deep_view() + Seq::<Seq<char>>::empty() =~= info.files.deep_view());
        assert(pkg_script_refs_view(scripts@) =~= Seq::<(Script, Seq<char>)>::empty());
        if len >= 1 {
            assert(all.skip(1 - 1) =~= all);
        }
    }
    while i < len
        invariant
            1 <= i <= len || (len == 0 && i == 1),
            len == lines@.len(),
            all0 == lines.deep_view(),
            all == (if all0.len() == 0 {
                Seq::<Seq<char>>::empty()
            } else {
                all0.drop_first()
            }),
            *info == (PackageInfo {
                conffiles: info.conffiles,
                files: info.files,
                ..*old(info)
            }),
            ({
                let effects = spec_pkgmap(all);
                let done = spec_pkgmap(all.skip(i - 1));
                &&& info.conffiles.deep_view() + done.0 == old(info).conffiles.deep_view()
                    + effects.0
                &&& info.files.deep_view() + done.1 == old(info).files.deep_view() + effects.1
                &&& pkg_script_refs_view(scripts@) + done.2 == effects.2
            }),
        decreases len - i,
    {
        proof {
            assert(all[i - 1] == all0[i as int]);
            assert(all0[i as int] == lines@[i as int].deep_view());
            assert(lines@[i as int].deep_view() =~= lines@[i as int]@);
            assert(all.skip(i - 1).first() == all[i - 1]);
            assert(all.skip(i - 1).drop_first() =~= all.skip(i as int));
        }
        let pieces = split_on_char(&lines[i], ' ');
        proof {
            assert(pieces.deep_view()[0] == pieces@[0]@);
            if pieces@.len() >= 4 {
                assert(pieces.deep_view()[1] == pieces@[1]@);
                assert(pieces.deep_view()[3] == pieces@[3]@);
            }
        }
        if pieces.len() >= 4 && chars_eq_str(&pieces[0], "1") {
            let is_f = chars_eq_str(&pieces[1], "f");
            let is_d = chars_eq_str(&pieces[1], "d");
            let is_i = chars_eq_str(&pieces[1], "i");
            proof {
                reveal_strlit("etc/");
            }
            if is_f && starts_with_str(&pieces[3], "etc/") {
                let mut path: Vec<char> = Vec::new();
                path.push('/');
                push_all(&mut path, &pieces[3]);
                proof {
                    assert(path@ =~= seq!['/'] + pieces.deep_view()[3]);
                }
                let ghost prev = info.conffiles.deep_view();
                let ghost added = path@;
                info.conffiles.push(chars_to_string(&path));
                proof {
                    assert(info.conffiles.deep_view() =~~= prev.push(added));
                    assert(info.conffiles.deep_view() =~~= prev + spec_pkgmap_line(
                        all[i - 1],
                    ).0);
                }
            } else if is_f || is_d {
                let ghost prev = info.files.deep_view();
                let ghost added = pieces.deep_view()[3];
                let p = chars_to_string(&pieces[3]);
                info.files.push(p);
                proof {
                    assert(info.files.deep_view() =~~= prev.push(added));
                    assert(info.files.deep_view() =~~= prev + spec_pkgmap_line(all[i - 1]).1);
                }
            } else if is_i {
                let name = chars_to_string(&pieces[3]);
                match Script::from_pkg_script_name(name.as_str()) {
                    Some(k) => {
                        let ghost prev = pkg_script_refs_view(scripts@);
                        scripts.push(PkgScriptRef { kind: k, path: name });
                        proof {
                            assert(pkg_script_refs_view(scripts@) =~= prev.push(
                                (k, pieces.deep_view()[3]),
                            ));
                        }
                    },
                    None => {},
                }
            }
        }
        proof {
            let step = spec_pkgmap_line(all[i - 1]);
            let here = spec_pkgmap(all.skip(i - 1));
            let next = spec_pkgmap(all.skip(i as int));
            assert(here.0 =~= step.0 + next.0);
            assert(here.1 =~= step.1 + next.1);
            assert(here.2 =~= step.2 + next.2);
            assert forall|a: Seq<Seq<char>>, b: Seq<Seq<char>>, c: Seq<Seq<char>>| true implies (a
                + b) + c =~= a + (b + c) by {}
            assert(info.conffiles.deep_view() + next.0 =~~= old(info).conffiles.deep_view()
                + spec_pkgmap(all).0);
            assert(info.files.deep_view() + next.1 =~~= old(info).files.deep_view() + spec_pkgmap(
                all,
            ).1);
            assert(pkg_script_refs_view(scripts@) + next.2 =~~= spec_pkgmap(all).2);
        }
        i += 1;
    }
    proof {
        if len > 0 {
            assert(all.skip(len - 1) =~= Seq::<Seq<char>>::empty());
        }
        assert(info.conffiles.deep_view() + Seq::<Seq<char>>::empty()
            =~= info.conffiles.deep_view());
        assert(info.files.deep_view() + Seq::<Seq<char>>::empty() =~= info.files.deep_view());
        assert(pkg_script_refs_view(scripts@) + Seq::<(Script, Seq<char>)>::empty()
            =~= pkg_script_refs_view(scripts@));
    }
    scripts
}

/// A package name shortened to Solaris conventions: a `lib` prefix
/// becomes `l`, a `-perl` suffix becomes `p`, a `perl-` prefix becomes
/// `pl`.
pub open spec fn spec_pkg_converted_name(s: Seq<char>) -> Seq<char> {
    let a = if crate::strutil::spec_starts_with(s, "lib"@) {
        seq!['l'] + s.subrange(3, s.len() as int)
    } else {
        s
    };
    let b = if crate::strutil::spec_ends_with(a, "-perl"@) {
        a.subrange(0, a.len() - 5) + seq!['p']
    } else {
        a
    };
    if crate::strutil::spec_starts_with(b, "perl-"@) {
        "pl"@ + b.subrange(5, b.len() as int)
    } else {
        b
    }
}

/// Shortens a package name to Solaris conventions.
pub fn pkg_convert_name(name: &str) -> (r: String)
    ensures
        r@ == spec_pkg_converted_name(name@),
{
    let s = str_to_chars(name);
    proof {
        reveal_strlit("lib");
        reveal_strlit("-perl");
        reveal_strlit("perl-");
        reveal_strlit("pl");
    }
    let a = if starts_with_str(&s, "lib") {
        let mut a: Vec<char> = Vec::new();
        a.push('l');
        push_all(&mut a, &subvec(&s, 3, s.len()));
        proof {
            assert(a@ =~= seq!['l'] + s@.subrange(3, s@.len() as int));
        }
        a
    } else {
        s
    };
    let b = if crate::strutil::ends_with_str(&a, "-perl") {
        let mut b = subvec(&a, 0, a.len() - 5);
        b.push('p');
        proof {
            assert(b@ =~= a@.subrange(0, a@.len() - 5) + seq!['p']);
        }
        b
    } else {
        a
    };
    let r = if starts_with_str(&b, "perl-") {
        let mut r: Vec<char> = Vec::new();
        push_str_chars(&mut r, "pl");
        proof {
            assert(Seq::<char>::empty() + "pl"@ =~= "pl"@);
        }
        push_all(&mut r, &subvec(&b, 5, b.len()));
        r
    } else {
        b
    };
    chars_to_string(&r)
}

/// The sequence with a leading run of non-whitespace removed.
pub open spec fn spec_drop_leading_nonws(s: Seq<char>) -> Seq<char>
    decreases s.len(),
{
    if s.len() > 0 && !crate::strutil::spec_is_ws(s[0]) {
        spec_drop_leading_nonws(s.drop_first())
    } else {
        s
    }
}

/// The internal package name the listing tool prints: on its first line,
/// after the first word, trimmed. `None` when the listing is empty.
pub open spec fn spec_pkg_listed_name(out: Seq<char>) -> Option<Seq<char>> {
    let lines = spec_lines(out);
    if lines.len() == 0 {
        None
    } else {
        Some(crate::strutil::spec_trim(spec_drop_leading_nonws(lines.first())))
    }
}

/// Reads the internal package name out of the listing tool's output.
pub fn pkg_listed_name(out: &str) -> (r: Option<String>)
    ensures
        (match r {
            Some(n) => Some(n@),
            None => None,
        }) == spec_pkg_listed_name(out@),
{
    let chars = str_to_chars(out);
    let lines = split_lines(&chars);
    if lines.len() == 0 {
        return None;
    }
    proof {
        assert(lines.deep_view()[0] == lines@[0].deep_view());
        assert(lines@[0].deep_view() =~= lines@[0]@);
        assert(spec_lines(out@).first() == lines.deep_view()[0]);
    }
    let first = &lines[0];
    let flen = first.len();
    proof {
        assert(first@.subrange(0, flen as int) =~= first@);
    }
    let mut i: usize = 0;
    while i < flen && !crate::strutil::is_ws(first[i])
        invariant
            i <= flen,
            flen == first@.len(),
            spec_drop_leading_nonws(first@) == spec_drop_leading_nonws(
                first@.subrange(i as int, flen as int),
            ),
        decreases flen - i,
    {
        proof {
            let rest = first@.subrange(i as int, flen as int);
            assert(rest.drop_first() =~= first@.subrange(i + 1 as int, flen as int));
        }
        i += 1;
    }
    proof {
        let rest = first@.subrange(i as int, flen as int);
        if i < flen {
            assert(crate::strutil::spec_is_ws(rest[0]));
        }
        assert(spec_drop_leading_nonws(rest) == rest);
    }
    let tail = subvec(first, i, flen);
    Some(chars_to_string(&crate::strutil::trim(&tail)))
}

/// The datastream marker a Solaris pkg file opens with.
pub fn pkg_marker_line(line: &str) -> (r: bool)
    ensures
        r == (crate::strutil::spec_find_sub(line@, "# PaCkAgE DaTaStReAm"@) is Some),
{
    let chars = str_to_chars(line);
    match crate::strutil::find_sub(&chars, "# PaCkAgE DaTaStReAm") {
        Some(_) => true,
        None => false,
    }
}

/// The package name a pkg file name implies: everything before the first
/// `-` of the last path component, if any.
pub open spec fn spec_pkg_file_name(path: Seq<char>) -> Option<Seq<char>> {
    let base = crate::deb_source::spec_base_name(path);
    match spec_find_first(base, '-') {
        Some(i) => Some(base.subrange(0, i)),
        None => None,
    }
}

/// Reads the package name out of a pkg file name.
pub fn pkg_name_from_file(path: &str) -> (r: Option<String>)
    ensures
        (match r {
            Some(n) => Some(n@),
            None => None,
        }) == spec_pkg_file_name(path@),
{
    let chars = str_to_chars(path);
    let base = crate::deb_source::base_name(&chars);
    match find_char(&base, '-') {
        Some(i) => {
            proof {
                lemma_find_first(base@, '-');
            }
            Some(chars_to_string(&subvec(&base, 0, i)))
        },
        None => None,
    }
}

/// A source package read from a Solaris pkg artifact.
pub struct PkgSource {
    /// The canonical model.
    pub info: PackageInfo,
    /// The lifecycle scripts named by the map, for the caller to read.
    pub script_refs: Vec<PkgScriptRef>,
}

impl PkgSource {
    /// Assembles the canonical model of a pkg package from its name, its
    /// `pkginfo` and `pkgmap` tables, and its copyright text. Fails
    /// exactly as [`parse_pkg_info`] does: with `MissingArch` when the
    /// table defines no `ARCH`, and with `MissingVersion` when it defines
    /// `ARCH` but no `VERSION`. The fixed fields a pkg source gets are
    /// filled first, and the named scripts are handed back for the caller
    /// to read.
    pub fn new(
        file: &str,
        name: &str,
        copyright: &str,
        pkginfo_text: &str,
        pkgmap_text: &str,
    ) -> (r: Result<PkgSource, PkgError>)
        ensures
            ({
                let lines = spec_lines(pkginfo_text@);
                let n = lines.len() as int;
                &&& (r == Err::<PkgSource, PkgError>(PkgError::MissingArch) <==> spec_pkginfo_value(
                    lines,
                    n,
                    "ARCH"@,
                ) is None)
                &&& (r == Err::<PkgSource, PkgError>(PkgError::MissingVersion)
                    <==> spec_pkginfo_value(lines, n, "ARCH"@) is Some && spec_pkginfo_value(
                    lines,
                    n,
                    "VERSION"@,
                ) is None)
            }),
            r matches Ok(s) ==> {
                &&& s.info.file@ == file@
                &&& s.info.name@ == name@
                &&& s.info.group@ == "unknown"@
                &&& s.info.summary@ == "Converted Solaris pkg package"@
                &&& s.info.copyright@ == copyright@
                &&& s.info.original_format == Format::Pkg
                &&& s.info.distribution@ == "Solaris"@
                &&& s.info.binary_info@ == "unknown"@
                &&& ({
                    let lines = spec_lines(pkginfo_text@);
                    let n = lines.len() as int;
                    &&& (match spec_pkginfo_value(lines, n, "ARCH"@) {
                        Some(a) => s.info.arch@ == spec_trim_quotes(a),
                        None => false,
                    })
                    &&& (match spec_pkginfo_value(lines, n, "VERSION"@) {
                        Some(v) => s.info.version@ == spec_trim_quotes(v),
                        None => false,
                    })
                    &&& s.info.description@ == (match spec_pkginfo_value(lines, n, "DESC"@) {
                        Some(d) => spec_trim_quotes(d),
                        None => Seq::<char>::empty(),
                    })
                })
                &&& ({
                    let effects = spec_pkgmap_of(pkgmap_text@);
                    &&& s.info.conffiles.deep_view() == effects.0
                    &&& s.info.files.deep_view() == effects.1
                    &&& pkg_script_refs_view(s.script_refs@) == effects.2
                })
            },
    {
        let mut info = PackageInfo::default();
        info.file = file.to_owned();
        info.name = name.to_owned();
        info.group = "unknown".to_owned();
        info.summary = "Converted Solaris pkg package".to_owned();
        info.copyright = copyright.to_owned();
        info.original_format = Format::Pkg;
        info.distribution = "Solaris".to_owned();
        info.binary_info = "unknown".to_owned();
        match parse_pkg_info(&mut info, pkginfo_text) {
            Ok(_) => {},
            Err(e) => {
                return Err(e);
            },
        }
        let ghost cf0 = info.conffiles.deep_view();
        let ghost fl0 = info.files.deep_view();
        let script_refs = parse_pkg_map(&mut info, pkgmap_text);
        proof {
            assert(cf0 =~= Seq::<Seq<char>>::empty());
            assert(fl0 =~= Seq::<Seq<char>>::empty());
            assert(Seq::<Seq<char>>::empty() + spec_pkgmap_of(pkgmap_text@).0 =~= spec_pkgmap_of(
                pkgmap_text@,
            ).0);
            assert(Seq::<Seq<char>>::empty() + spec_pkgmap_of(pkgmap_text@).1 =~= spec_pkgmap_of(
                pkgmap_text@,
            ).1);
        }
        Ok(PkgSource { info, script_refs })
    }
}

/// A single-use generator for the pkg target format: the model, the
/// shortened package name, and the rendered `pkginfo` file.
pub struct PkgTarget {
    /// The model the target is generated from.
    pub info: PackageInfo,
    /// The working directory the payload was unpacked into.
    pub unpacked_dir: String,
    /// The package name shortened to Solaris conventions.
    pub converted_name: String,
    /// The rendered `pkginfo` file.
    pub pkginfo: String,
}

impl PkgTarget {
    /// Prepares a pkg target: shortens the name and renders the `pkginfo`
    /// file.
    pub fn new(info: PackageInfo, unpacked_dir: &str) -> (r: PkgTarget)
        ensures
            r.info == info,
            r.unpacked_dir@ == unpacked_dir@,
            r.converted_name@ == spec_pkg_converted_name(info.name@),
            r.pkginfo@ == spec_pkg_pkginfo(info, spec_pkg_converted_name(info.name@)),
    {
        let converted_name = pkg_convert_name(info.name.as_str());
        let pkginfo = pkg_pkginfo(&info, converted_name.as_str());
        PkgTarget { info, unpacked_dir: unpacked_dir.to_owned(), converted_name, pkginfo }
    }
}

/// The `pkginfo` file of a pkg target.
pub open spec fn spec_pkg_pkginfo(info: PackageInfo, converted_name: Seq<char>) -> Seq<char> {
    "PKG=\""@ + converted_name + "\"\nNAME=\""@ + info.name@ + "\"\nARCH=\""@ + info.arch@
        + "\"\nVERSION=\""@ + info.version@
        + "\"\nCATEGORY=\"application\"\nVENDOR=\"Alien-converted package\"\nEMAIL=\nPSTAMP=alien\nMAXINST=1000\nBASEDIR=\"/\"\nCLASSES=\"none\"\nDESC=\""@
        + info.description@ + "\"\n"@
}

/// Renders the `pkginfo` file of a pkg target.
pub fn pkg_pkginfo(info: &PackageInfo, converted_name: &str) -> (r: String)
    ensures
        r@ == spec_pkg_pkginfo(*info, converted_name@),
{
    let mut out: Vec<char> = Vec::new();
    push_str_chars(&mut out, "PKG=\"");
    proof {
        assert(Seq::<char>::empty() + "PKG=\""@ =~= "PKG=\""@);
    }
    push_all(&mut out, &str_to_chars(converted_name));
    push_str_chars(&mut out, "\"\nNAME=\"");
    push_all(&mut out, &str_to_chars(info.name.as_str()));
    push_str_chars(&mut out, "\"\nARCH=\"");
    push_all(&mut out, &str_to_chars(info.arch.as_str()));
    push_str_chars(&mut out, "\"\nVERSION=\"");
    push_all(&mut out, &str_to_chars(info.version.as_str()));
    push_str_chars(
        &mut out,
        "\"\nCATEGORY=\"application\"\nVENDOR=\"Alien-converted package\"\nEMAIL=\nPSTAMP=alien\nMAXINST=1000\nBASEDIR=\"/\"\nCLASSES=\"none\"\nDESC=\"",
    );
    push_all(&mut out, &str_to_chars(info.description.as_str()));
    push_str_chars(&mut out, "\"\n");
    chars_to_string(&out)
}

/// The file name the pkg build step will produce: `name-version.pkg`.
pub open spec fn spec_pkg_output_name(info: PackageInfo) -> Seq<char> {
    info.name@ + "-"@ + info.version@ + ".pkg"@
}

/// The file name the pkg build step will produce.
pub fn pkg_output_name(info: &PackageInfo) -> (r: String)
    ensures
        r@ == spec_pkg_output_name(*info),
{
    let mut out: Vec<char> = Vec::new();
    push_all(&mut out, &str_to_chars(info.name.as_str()));
    proof {
        assert(Seq::<char>::empty() + info.name@ =~= info.name@);
    }
    push_str_chars(&mut out, "-");
    push_all(&mut out, &str_to_chars(info.version.as_str()));
    push_str_chars(&mut out, ".pkg");
    chars_to_string(&out)
}

} // verus!
