//! Parsing of a Debian `control` file: key/value header lines with a folded
//! multi-line description, read into the canonical package model.

use vstd::prelude::*;

use crate::model::PackageInfo;
use crate::strutil::{
    chars_eq_str, chars_to_string, find_char, lemma_find_first, push_all, spec_find_first,
    spec_lines, spec_lower, spec_split_str, spec_trim, spec_trim_start, split_lines,
    split_on_str, str_to_chars, subvec, to_ascii_lower, trim, trim_start,
};
use crate::version::{set_version_and_release, spec_decoded_release, spec_decoded_version};

verus! {

/// The part of the package model a control file acts on, together with the
/// name of the field the parse last saw.
pub struct ControlState {
    /// The package name.
    pub name: Seq<char>,
    /// The upstream version.
    pub version: Seq<char>,
    /// The release number.
    pub release: Seq<char>,
    /// The architecture.
    pub arch: Seq<char>,
    /// The maintainer.
    pub maintainer: Seq<char>,
    /// The section.
    pub group: Seq<char>,
    /// The one-line description.
    pub summary: Seq<char>,
    /// The long description.
    pub description: Seq<char>,
    /// The dependencies.
    pub depends: Seq<Seq<char>>,
    /// The lower-cased name of the last header field read.
    pub field: Seq<char>,
}

/// The state a package model corresponds to, under a given last-seen field.
pub open spec fn control_state_of(info: PackageInfo, field: Seq<char>) -> ControlState {
    ControlState {
        name: info.name@,
        version: info.version@,
        release: info.release@,
        arch: info.arch@,
        maintainer: info.maintainer@,
        group: info.group@,
        summary: info.summary@,
        description: info.description@,
        depends: info.dependencies.deep_view(),
        field: field,
    }
}

/// The model fields of a state, ignoring the last-seen field name.
pub open spec fn info_matches_state(info: PackageInfo, st: ControlState) -> bool {
    &&& info.name@ == st.name
    &&& info.version@ == st.version
    &&& info.release@ == st.release
    &&& info.arch@ == st.arch
    &&& info.maintainer@ == st.maintainer
    &&& info.group@ == st.group
    &&& info.summary@ == st.summary
    &&& info.description@ == st.description
    &&& info.dependencies.deep_view() == st.depends
}

/// How one line of a control file changes the state.
///
/// A line starting with a space continues the description when the last
/// field was `description`: its trimmed text is appended, a lone `.`
/// standing for an empty line. A `key: value` line lower-cases the key,
/// trims the value, and stores it in the field the key names; a `version`
/// value is split into version and release, and a `depends` value is split
/// on `, ` into the dependency list. Other lines change nothing.
pub open spec fn control_step(st: ControlState, line: Seq<char>) -> ControlState {
    if line.len() > 0 && line[0] == ' ' && st.field == "description"@ {
        let c = spec_trim_start(line);
        let added = if c == "."@ {
            seq!['\n']
        } else {
            c + seq!['\n']
        };
        ControlState { description: st.description + added, ..st }
    } else {
        match spec_find_first(line, ':') {
            Some(i) => {
                let f = spec_lower(line.subrange(0, i));
                let value = spec_trim(line.subrange(i + 1, line.len() as int));
                let st = ControlState { field: f, ..st };
                if f == "package"@ {
                    ControlState { name: value, ..st }
                } else if f == "version"@ {
                    ControlState {
                        version: spec_decoded_version(value),
                        release: spec_decoded_release(value),
                        ..st
                    }
                } else if f == "architecture"@ {
                    ControlState { arch: value, ..st }
                } else if f == "maintainer"@ {
                    ControlState { maintainer: value, ..st }
                } else if f == "section"@ {
                    ControlState { group: value, ..st }
                } else if f == "description"@ {
                    ControlState { summary: value, ..st }
                } else if f == "depends"@ {
                    ControlState { depends: spec_split_str(value, ", "@), ..st }
                } else {
                    st
                }
            },
            None => st,
        }
    }
}

/// The state after reading a sequence of lines, first line first.
pub open spec fn control_fold(lines: Seq<Seq<char>>, st: ControlState) -> ControlState
    decreases lines.len(),
{
    if lines.len() == 0 {
        st
    } else {
        control_fold(lines.drop_first(), control_step(st, lines.first()))
    }
}

/// Fields of the model a control file never touches keep their value.
pub open spec fn control_untouched(a: PackageInfo, b: PackageInfo) -> bool {
    &&& a.file == b.file
    &&& a.copyright == b.copyright
    &&& a.original_format == b.original_format
    &&& a.distribution == b.distribution
    &&& a.binary_info == b.binary_info
    &&& a.conffiles == b.conffiles
    &&& a.files == b.files
    &&& a.changelog == b.changelog
    &&& a.use_scripts == b.use_scripts
    &&& a.scripts == b.scripts
    &&& a.file_info == b.file_info
}

/// Applies one parsed line to the model, as [`control_step`] says.
fn apply_control_line(info: &mut PackageInfo, field: &mut Vec<char>, line: &Vec<char>)
    ensures
        control_state_of(*final(info), final(field)@) == control_step(
            control_state_of(*old(info), old(field)@),
            line@,
        ),
        control_untouched(*final(info), *old(info)),
{
    let ghost st0 = control_state_of(*old(info), old(field)@);
    let ghost stepped = control_step(st0, line@);
    if line.len() > 0 && line[0] == ' ' && chars_eq_str(field, "description") {
        let c = trim_start(line);
        let mut desc = str_to_chars(info.description.as_str());
        if !chars_eq_str(&c, ".") {
            push_all(&mut desc, &c);
        }
        desc.push('\n');
        proof {
            if c@ == "."@ {
                assert(desc@ =~= st0.description + seq!['\n']);
            } else {
                assert(desc@ =~= st0.description + (c@ + seq!['\n']));
            }
        }
        info.description = chars_to_string(&desc);
    } else {
        match find_char(line, ':') {
            Some(i) => {
                proof {
                    lemma_find_first(line@, ':');
                }
                let key = subvec(line, 0, i);
                let rest = subvec(line, i + 1, line.len());
                let value_chars = trim(&rest);
                let value = chars_to_string(&value_chars);
                let f = to_ascii_lower(&key);
                let is_package = chars_eq_str(&f, "package");
                let is_version = chars_eq_str(&f, "version");
                let is_architecture = chars_eq_str(&f, "architecture");
                let is_maintainer = chars_eq_str(&f, "maintainer");
                let is_section = chars_eq_str(&f, "section");
                let is_description = chars_eq_str(&f, "description");
                let is_depends = chars_eq_str(&f, "depends");
                *field = f;
                if is_package {
                    info.name = value;
                } else if is_version {
                    set_version_and_release(info, value.as_str());
                } else if is_architecture {
                    info.arch = value;
                } else if is_maintainer {
                    info.maintainer = value;
                } else if is_section {
                    info.group = value;
                } else if is_description {
                    info.summary = value;
                } else if is_depends {
                    info.dependencies = strings_of_pieces(&split_on_str(&value_chars, ", "));
                }
            },
            None => {},
        }
    }
}

/// Turns split pieces into owned strings.
fn strings_of_pieces(pieces: &Vec<Vec<char>>) -> (r: Vec<String>)
    ensures
        r.deep_view() == pieces.deep_view(),
{
    let len = pieces.len();
    let mut out: Vec<String> = Vec::new();
    let mut i: usize = 0;
    proof {
        assert(out.deep_view() =~= pieces.deep_view().subrange(0, 0));
    }
    while i < len
        invariant
            i <= len,
            len == pieces@.len(),
            out.deep_view() == pieces.deep_view().subrange(0, i as int),
        decreases len - i,
    {
        proof {
            assert(pieces.deep_view()[i as int] == pieces@[i as int].deep_view());
            assert(pieces@[i as int].deep_view() =~= pieces@[i as int]@);
        }
        let ghost prev = out.deep_view();
        let ghost added = pieces.deep_view()[i as int];
        let s = chars_to_string(&pieces[i]);
        out.push(s);
        proof {
            assert(out.deep_view() =~~= prev.push(added));
            assert(prev.push(added) =~= pieces.deep_view().subrange(0, i + 1 as int));
        }
        i += 1;
    }
    proof {
        assert(pieces.deep_view().subrange(0, len as int) =~= pieces.deep_view());
    }
    out
}

/// Reads a control file into the model line by line, as [`control_step`]
/// says; fields no control line names keep their value.
pub fn read_control(info: &mut PackageInfo, control: &str)
    ensures
        info_matches_state(
            *final(info),
            control_fold(spec_lines(control@), control_state_of(*old(info), Seq::<char>::empty())),
        ),
        control_untouched(*final(info), *old(info)),
{
    let text = str_to_chars(control);
    let lines = split_lines(&text);
    let mut field: Vec<char> = Vec::new();
    let len = lines.len();
    let ghost st0 = control_state_of(*old(info), Seq::<char>::empty());
    let ghost all = lines.deep_view();
    proof {
        assert(all.skip(0) =~= all);
    }
    let mut i: usize = 0;
    while i < len
        invariant
            i <= len,
            len == lines@.len(),
            len == all.len(),
            all == lines.deep_view(),
            control_fold(all.skip(i as int), control_state_of(*info, field@)) == control_fold(
                all,
                st0,
            ),
            control_untouched(*info, *old(info)),
        decreases len - i,
    {
        let line = &lines[i];
        proof {
            assert(line@ == all[i as int]);
            assert(all.skip(i as int).first() == all[i as int]);
            assert(all.skip(i as int).drop_first() =~= all.skip(i + 1 as int));
        }
        apply_control_line(info, &mut field, line);
        i += 1;
    }
    proof {
        assert(all.skip(len as int) =~= Seq::<Seq<char>>::empty());
    }
}

} // verus!
