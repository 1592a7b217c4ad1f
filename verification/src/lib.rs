//! Conversion core for installable software packages: decoders that read a
//! source package's metadata into a canonical model, and generators that turn
//! that model back into another format's control files.

use vstd::prelude::*;

pub mod bytes;
pub mod container;
pub mod control;
pub mod deb_source;
pub mod deb_target;
pub mod lsb;
pub mod model;
pub mod outside;
pub mod pkg;
pub mod rpm_source;
pub mod rpm_target;
pub mod scripts;
pub mod strutil;
pub mod tgz;
pub mod version;

pub use control::read_control;
pub use deb_source::deb_info_from_control_files;
pub use deb_source::ControlFile;
pub use deb_source::DebError;
pub use deb_target::DebTarget;
pub use lsb::LsbSource;
pub use lsb::LsbTarget;
pub use model::DebArgs;
pub use model::FileEntry;
pub use model::FileInfo;
pub use model::PackageInfo;
pub use model::ScriptMap;
pub use model::TgzArgs;
pub use model::Verbosity;
pub use pkg::PkgSource;
pub use pkg::PkgTarget;
pub use rpm_source::RpmFields;
pub use rpm_source::RpmSource;
pub use rpm_target::RpmTarget;
pub use scripts::Script;
pub use tgz::TgzSource;
pub use tgz::TgzTarget;
pub use version::set_version_and_release;

verus! {

/// Format of a package.
#[derive(Debug, Clone, Copy, PartialEq, Eq, Structural)]
pub enum Format {
    /// The `.deb` format, used by Debian- and Ubuntu-derived distributions.
    Deb,
    /// The package format used by Linux Standard Base: an rpm with an
    /// `lsb-` name prefix and a dependency on the `lsb` package.
    Lsb,
    /// The `.pkg` format, used by Solaris.
    Pkg,
    /// The `.rpm` format, used by the RPM package manager.
    Rpm,
    /// The `.tgz` format, used by Slackware.
    Tgz,
}

impl Format {
    /// The format's short lower-case name, as it appears in generated
    /// metadata ("converted from" notes and the like).
    pub fn name(&self) -> (r: &'static str)
        ensures
            r@ == spec_format_name(*self),
    {
        match self {
            Format::Deb => "deb",
            Format::Lsb => "lsb",
            Format::Pkg => "pkg",
            Format::Rpm => "rpm",
            Format::Tgz => "tgz",
        }
    }
}

/// The short name of each format.
pub open spec fn spec_format_name(f: Format) -> Seq<char> {
    match f {
        Format::Deb => "deb"@,
        Format::Lsb => "lsb"@,
        Format::Pkg => "pkg"@,
        Format::Rpm => "rpm"@,
        Format::Tgz => "tgz"@,
    }
}

impl Default for Format {
    /// The default target format.
    fn default() -> (r: Self)
        ensures
            r == Format::Deb,
    {
        Format::Deb
    }
}

/// The source format a package artifact is sniffed as, in priority order:
/// an `.rpm` whose stem starts `lsb-` and whose dependency listing names
/// `lsb` is LSB; any other `.rpm` is rpm; a `.deb` extension is Debian; the
/// tgz extensions are Slackware; and a first line carrying the Solaris
/// datastream marker is pkg.
pub open spec fn spec_detected_format(
    file: Seq<char>,
    first_line: Seq<char>,
    deps_listing: Seq<char>,
) -> Option<Format> {
    let is_rpm_ext = match crate::rpm_source::spec_path_extension(file) {
        Some(e) => crate::strutil::spec_lower(e) == "rpm"@,
        None => false,
    };
    if crate::strutil::spec_starts_with(crate::lsb::spec_path_stem(file), "lsb-"@)
        && crate::rpm_source::spec_path_extension(file) == Some("rpm"@) && (exists|i: int|
        0 <= i < crate::strutil::spec_lines(deps_listing).len() && crate::strutil::spec_trim(
            #[trigger] crate::strutil::spec_lines(deps_listing)[i],
        ) == "lsb"@) {
        Some(Format::Lsb)
    } else if is_rpm_ext {
        Some(Format::Rpm)
    } else if (match crate::rpm_source::spec_path_extension(file) {
        Some(e) => crate::strutil::spec_lower(e) == "deb"@,
        None => false,
    }) {
        Some(Format::Deb)
    } else if crate::tgz::spec_tgz_check(file) {
        Some(Format::Tgz)
    } else if crate::strutil::spec_find_sub(first_line, "# PaCkAgE DaTaStReAm"@) is Some {
        Some(Format::Pkg)
    } else {
        None
    }
}

/// Sniffs the source format of an artifact from its path, its first line,
/// and — for the LSB test — what the rpm query tool listed as its
/// dependencies.
pub fn detect_source_format(file: &str, first_line: &str, deps_listing: &str) -> (r: Option<
    Format,
>)
    ensures
        r == spec_detected_format(file@, first_line@, deps_listing@),
{
    if crate::lsb::lsb_check_file_name(file) && crate::lsb::deps_name_lsb(deps_listing) {
        Some(Format::Lsb)
    } else if crate::rpm_source::path_has_extension(file, "rpm") {
        Some(Format::Rpm)
    } else if crate::rpm_source::path_has_extension(file, "deb") {
        Some(Format::Deb)
    } else if crate::tgz::tgz_check_file(file) {
        Some(Format::Tgz)
    } else if crate::pkg::pkg_marker_line(first_line) {
        Some(Format::Pkg)
    } else {
        None
    }
}

/// A target generator of any format: the closed set of the five target
/// adapters, so that a match over it is checked exhaustive.
pub enum AnyTargetPackage {
    /// A Debian target.
    Deb(DebTarget),
    /// An LSB target.
    Lsb(LsbTarget),
    /// A Solaris pkg target.
    Pkg(PkgTarget),
    /// An rpm target.
    Rpm(RpmTarget),
    /// A Slackware tgz target.
    Tgz(TgzTarget),
}

/// The model a target generator holds.
pub open spec fn spec_any_target_info(t: AnyTargetPackage) -> PackageInfo {
    match t {
        AnyTargetPackage::Deb(t) => t.info,
        AnyTargetPackage::Lsb(t) => t.rpm.info,
        AnyTargetPackage::Pkg(t) => t.info,
        AnyTargetPackage::Rpm(t) => t.info,
        AnyTargetPackage::Tgz(t) => t.info,
    }
}

impl AnyTargetPackage {
    /// The sanitized model the target was generated from.
    pub fn info(&self) -> (r: &PackageInfo)
        ensures
            *r == spec_any_target_info(*self),
    {
        match self {
            AnyTargetPackage::Deb(t) => &t.info,
            AnyTargetPackage::Lsb(t) => &t.rpm.info,
            AnyTargetPackage::Pkg(t) => &t.info,
            AnyTargetPackage::Rpm(t) => &t.info,
            AnyTargetPackage::Tgz(t) => &t.info,
        }
    }

    /// The file name the build step of this target's format will produce.
    pub fn output_name(&self) -> (r: String)
        ensures
            r@ == (match *self {
                AnyTargetPackage::Deb(t) => crate::deb_target::spec_deb_output_name(t.info),
                AnyTargetPackage::Lsb(t) => crate::rpm_target::spec_rpm_output_name(t.rpm.info),
                AnyTargetPackage::Pkg(t) => crate::pkg::spec_pkg_output_name(t.info),
                AnyTargetPackage::Rpm(t) => crate::rpm_target::spec_rpm_output_name(t.info),
                AnyTargetPackage::Tgz(t) => crate::tgz::spec_tgz_output_name(t.info),
            }),
    {
        match self {
            AnyTargetPackage::Deb(t) => crate::deb_target::deb_output_name(&t.info),
            AnyTargetPackage::Lsb(t) => crate::rpm_target::rpm_output_name(&t.rpm.info),
            AnyTargetPackage::Pkg(t) => crate::pkg::pkg_output_name(&t.info),
            AnyTargetPackage::Rpm(t) => crate::rpm_target::rpm_output_name(&t.info),
            AnyTargetPackage::Tgz(t) => crate::tgz::tgz_output_name(&t.info),
        }
    }
}

} // verus!
