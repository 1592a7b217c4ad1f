//! Reading and generating Linux Standard Base packages: rpms with an
//! `lsb-` name prefix and a dependency on the `lsb` package. Both sides
//! delegate to the rpm adapters; the LSB source never has its release
//! bumped.

use vstd::prelude::*;

use crate::model::PackageInfo;
use crate::rpm_source::{spec_path_extension, RpmError, RpmFields, RpmSource};
use crate::rpm_target::{spec_rpm_target_ok, RpmTarget, RpmTargetError};
use crate::strutil::{
    chars_eq_str, chars_to_string, push_all, push_str_chars, spec_find_last, spec_lines,
    spec_starts_with, spec_trim, split_lines, starts_with_str, str_to_chars, subvec, trim,
};
use crate::deb_source::spec_base_name;
use crate::Format;

verus! {

/// The stem of a path: its last component without the extension.
pub open spec fn spec_path_stem(s: Seq<char>) -> Seq<char> {
    let base = spec_base_name(s);
    match spec_find_last(base, '.') {
        Some(i) => if i == 0 {
            base
        } else {
            base.subrange(0, i)
        },
        None => base,
    }
}

/// Recognizes an LSB artifact by its name: an `.rpm` whose stem starts
/// with `lsb-`. Whether it really depends on the `lsb` package is decided
/// from the query tool's dependency listing, see [`deps_name_lsb`].
pub fn lsb_check_file_name(file: &str) -> (r: bool)
    ensures
        r == (spec_starts_with(spec_path_stem(file@), "lsb-"@) && spec_path_extension(file@)
            == Some("rpm"@)),
{
    let chars = str_to_chars(file);
    let base = crate::deb_source::base_name(&chars);
    let blen = base.len();
    proof {
        reveal_strlit("lsb-");
        reveal_strlit("rpm");
    }
    match crate::strutil::rfind_char(&base, '.') {
        Some(i) => {
            proof {
                crate::strutil::lemma_find_last(base@, '.');
            }
            let stem = if i == 0 {
                subvec(&base, 0, blen)
            } else {
                subvec(&base, 0, i)
            };
            proof {
                if i == 0 {
                    assert(stem@ =~= base@);
                }
            }
            let ext_ok = if i == 0 {
                false
            } else {
                let ext = subvec(&base, i + 1, blen);
                chars_eq_str(&ext, "rpm")
            };
            proof {
                if spec_path_extension(file@) == Some("rpm"@) && i == 0 {
                    assert(false);
                }
            }
            starts_with_str(&stem, "lsb-") && ext_ok
        },
        None => {
            proof {
                if spec_path_extension(file@) == Some("rpm"@) {
                    assert(false);
                }
            }
            false
        },
    }
}

/// Tests whether a dependency listing names the `lsb` package: some line,
/// trimmed, is exactly `lsb`.
pub fn deps_name_lsb(out: &str) -> (r: bool)
    ensures
        r == (exists|i: int|
            0 <= i < spec_lines(out@).len() && spec_trim(#[trigger] spec_lines(out@)[i])
                == "lsb"@),
{
    let chars = str_to_chars(out);
    let lines = split_lines(&chars);
    let len = lines.len();
    let mut i: usize = 0;
    while i < len
        invariant
            i <= len,
            len == lines@.len(),
            lines.deep_view() == spec_lines(out@),
            forall|j: int| 0 <= j < i ==> spec_trim(#[trigger] spec_lines(out@)[j]) != "lsb"@,
        decreases len - i,
    {
        proof {
            assert(lines.deep_view()[i as int] == lines@[i as int].deep_view());
            assert(lines@[i as int].deep_view() =~= lines@[i as int]@);
        }
        let t = trim(&lines[i]);
        if chars_eq_str(&t, "lsb") {
            proof {
                assert(spec_trim(spec_lines(out@)[i as int]) == "lsb"@);
            }
            return true;
        }
        i += 1;
    }
    false
}

/// A source package read from an LSB artifact: the rpm adapter's result
/// with the LSB markers applied.
pub struct LsbSource {
    /// The underlying rpm source.
    pub rpm: RpmSource,
}

impl LsbSource {
    /// Reads an LSB source: the rpm adapter's work, with the distribution
    /// and format set to LSB, a dependency on the `lsb` package, and
    /// scripts carried over by default.
    pub fn new(file: &str, fields: &RpmFields, target: &Option<String>) -> (r: Result<
        LsbSource,
        RpmError,
    >)
        ensures
            r matches Err(e) ==> crate::rpm_source::spec_rpm_source_err(*fields) == Some(e),
            r matches Ok(s) ==> {
                &&& crate::rpm_source::spec_rpm_core_fields(
                    s.rpm,
                    file@,
                    *fields,
                    match target {
                        Some(t) => Some(t@),
                        None => None,
                    },
                )
                &&& s.rpm.info.distribution@ == "Linux Standard Base"@
                &&& s.rpm.info.original_format == Format::Lsb
                &&& s.rpm.info.dependencies.deep_view() == seq!["lsb"@]
                &&& s.rpm.info.use_scripts == true
            },
    {
        let mut rpm = match RpmSource::new(file, fields, target) {
            Ok(r) => r,
            Err(e) => {
                return Err(e);
            },
        };
        rpm.info.distribution = "Linux Standard Base".to_owned();
        rpm.info.original_format = Format::Lsb;
        let mut deps: Vec<String> = Vec::new();
        deps.push("lsb".to_owned());
        proof {
            assert(deps.deep_view() =~~= seq!["lsb"@]);
        }
        rpm.info.dependencies = deps;
        rpm.info.use_scripts = true;
        Ok(LsbSource { rpm })
    }

    /// LSB package versions are never altered: bumping the release does
    /// nothing.
    pub fn increment_release(&mut self, bump: u32)
        ensures
            *final(self) == *old(self),
    {
    }
}

/// A single-use generator for the LSB target format: the rpm generator
/// run on a model with the LSB name prefix and dependency.
pub struct LsbTarget {
    /// The underlying rpm target.
    pub rpm: RpmTarget,
}

/// A package name with the `lsb-` prefix it may be missing.
pub open spec fn spec_lsb_name(name: Seq<char>) -> Seq<char> {
    if spec_starts_with(name, "lsb-"@) {
        name
    } else {
        "lsb-"@ + name
    }
}

impl LsbTarget {
    /// Generates an LSB target: the package name gains an `lsb-` prefix
    /// if missing and `lsb` joins the dependencies; the rpm generator
    /// does the rest. Fails exactly when some payload file name cannot be
    /// unquoted; the LSB changes touch neither the file list nor the
    /// conffiles.
    pub fn new(info: PackageInfo, unpacked_dir: &str, build_root: &str) -> (r: Result<
        LsbTarget,
        RpmTargetError,
    >)
        ensures
            r is Ok <==> crate::rpm_target::spec_files_list(
                info.files.deep_view(),
                info.conffiles.deep_view(),
            ) is Some,
            r matches Err(e) ==> e == RpmTargetError::BadFileName,
            r matches Ok(t) ==> spec_rpm_target_ok(
                t.rpm,
                PackageInfo {
                    name: t.rpm.info.name,
                    dependencies: t.rpm.info.dependencies,
                    version: info.version,
                    arch: info.arch,
                    scripts: info.scripts,
                    ..info
                },
                unpacked_dir@,
                build_root@,
            ) && t.rpm.info.name@ == spec_lsb_name(info.name@)
                && t.rpm.info.dependencies.deep_view() == info.dependencies.deep_view().push(
                "lsb"@,
            ),
    {
        let mut info = info;
        proof {
            reveal_strlit("lsb-");
        }
        let name_chars = str_to_chars(info.name.as_str());
        if !starts_with_str(&name_chars, "lsb-") {
            let mut n: Vec<char> = Vec::new();
            push_str_chars(&mut n, "lsb-");
            proof {
                assert(Seq::<char>::empty() + "lsb-"@ =~= "lsb-"@);
            }
            push_all(&mut n, &name_chars);
            info.name = chars_to_string(&n);
        }
        let ghost old_deps = info.dependencies.deep_view();
        info.dependencies.push("lsb".to_owned());
        proof {
            assert(info.dependencies.deep_view() =~~= old_deps.push("lsb"@));
        }
        let rpm = match RpmTarget::new(info, unpacked_dir, build_root) {
            Ok(t) => t,
            Err(e) => {
                return Err(e);
            },
        };
        Ok(LsbTarget { rpm })
    }
}

} // verus!
