//! The canonical package model: everything a source package is reduced to
//! before a target format is generated from it.

use vstd::prelude::*;

use crate::scripts::Script;
use crate::strutil::{
    chars_to_string, parse_u32, spec_parse_u32, spec_u32_chars, str_to_chars, u32_to_chars,
};
use crate::Format;

verus! {

/// Ownership and mode data for one payload file that could not be applied
/// on the extracting host and must be fixed up at install time instead.
#[derive(Debug, Clone, PartialEq, Eq)]
pub struct FileInfo {
    /// The owner, as `user` or `user:group`, whichever parts failed to
    /// resolve on the extracting host.
    pub owner: String,
    /// The original mode. Set for files with setuid/setgid/sticky bits.
    pub mode: Option<u32>,
}

/// A payload path together with its [`FileInfo`].
#[derive(Debug, Clone, PartialEq, Eq)]
pub struct FileEntry {
    /// The payload path.
    pub path: String,
    /// The ownership and mode data to restore at install time.
    pub info: FileInfo,
}

/// The four lifecycle scripts of a package, by kind.
#[derive(Debug, Clone, PartialEq, Eq)]
pub struct ScriptMap {
    /// The before-install script.
    pub before_install: Option<String>,
    /// The after-install script.
    pub after_install: Option<String>,
    /// The before-uninstall script.
    pub before_uninstall: Option<String>,
    /// The after-uninstall script.
    pub after_uninstall: Option<String>,
}

impl ScriptMap {
    /// The script stored under a kind, as a sequence of characters.
    pub open spec fn spec_get(self, k: Script) -> Option<Seq<char>> {
        match k {
            Script::BeforeInstall => match self.before_install {
                Some(s) => Some(s@),
                None => None,
            },
            Script::AfterInstall => match self.after_install {
                Some(s) => Some(s@),
                None => None,
            },
            Script::BeforeUninstall => match self.before_uninstall {
                Some(s) => Some(s@),
                None => None,
            },
            Script::AfterUninstall => match self.after_uninstall {
                Some(s) => Some(s@),
                None => None,
            },
        }
    }

    /// A map with no scripts.
    pub fn empty() -> (r: ScriptMap)
        ensures
            forall|k: Script| r.spec_get(k) is None,
    {
        ScriptMap {
            before_install: None,
            after_install: None,
            before_uninstall: None,
            after_uninstall: None,
        }
    }

    /// Reads the script of one kind.
    pub fn get(&self, k: Script) -> (r: &Option<String>)
        ensures
            (match r {
                Some(s) => Some(s@),
                None => None,
            }) == self.spec_get(k),
    {
        match k {
            Script::BeforeInstall => &self.before_install,
            Script::AfterInstall => &self.after_install,
            Script::BeforeUninstall => &self.before_uninstall,
            Script::AfterUninstall => &self.after_uninstall,
        }
    }

    /// Stores the script of one kind.
    pub fn set(&mut self, k: Script, body: String)
        ensures
            final(self).spec_get(k) == Some(body@),
            forall|j: Script| j != k ==> final(self).spec_get(j) == old(self).spec_get(j),
    {
        match k {
            Script::BeforeInstall => self.before_install = Some(body),
            Script::AfterInstall => self.after_install = Some(body),
            Script::BeforeUninstall => self.before_uninstall = Some(body),
            Script::AfterUninstall => self.after_uninstall = Some(body),
        }
    }

    /// No kind has a script.
    pub open spec fn spec_is_empty(self) -> bool {
        forall|k: Script| self.spec_get(k) is None
    }

    /// Tests whether no kind has a script.
    pub fn is_empty(&self) -> (r: bool)
        ensures
            r == self.spec_is_empty(),
    {
        let r = self.before_install.is_none() && self.after_install.is_none()
            && self.before_uninstall.is_none() && self.after_uninstall.is_none();
        proof {
            if r {
                assert forall|k: Script| self.spec_get(k) is None by {}
            } else {
                if self.before_install is Some {
                    assert(self.spec_get(Script::BeforeInstall) is Some);
                }
                if self.after_install is Some {
                    assert(self.spec_get(Script::AfterInstall) is Some);
                }
                if self.before_uninstall is Some {
                    assert(self.spec_get(Script::BeforeUninstall) is Some);
                }
                if self.after_uninstall is Some {
                    assert(self.spec_get(Script::AfterUninstall) is Some);
                }
            }
        }
        r
    }
}

/// Extracted information about a package: the canonical model every source
/// adapter fills and every target adapter reads.
#[derive(Debug, Clone, PartialEq, Eq)]
pub struct PackageInfo {
    /// The path to the original package artifact.
    pub file: String,
    /// The package's name.
    pub name: String,
    /// The package's upstream version, never holding an embedded release
    /// suffix or epoch prefix: those are split out at parse time.
    pub version: String,
    /// The package's distribution-specific release number.
    pub release: String,
    /// The package's architecture, in the style used by Debian.
    pub arch: String,
    /// The package's maintainer.
    pub maintainer: String,
    /// Dependencies that can be expected on every target distribution.
    pub dependencies: Vec<String>,
    /// The section the package is in.
    pub group: String,
    /// A one-line description of the package.
    pub summary: String,
    /// A longer description, possibly of multiple paragraphs.
    pub description: String,
    /// A short statement of copyright.
    pub copyright: String,
    /// The format the package was originally in.
    pub original_format: Format,
    /// The distribution family the package originated from.
    pub distribution: String,
    /// What the source format's package tool printed about the package,
    /// kept for reproduction in the target's "converted from" note.
    pub binary_info: String,
    /// Paths that must be preserved across reinstall and upgrade.
    pub conffiles: Vec<String>,
    /// All payload paths in the package.
    pub files: Vec<String>,
    /// The text of the changelog.
    pub changelog: String,
    /// Whether lifecycle scripts are carried into the generated package.
    /// Ownership fixups are injected regardless of this flag.
    pub use_scripts: bool,
    /// The lifecycle scripts.
    pub scripts: ScriptMap,
    /// Ownership and mode data that the filesystem could not hold, keyed by
    /// payload path.
    pub file_info: Vec<FileEntry>,
}

impl Default for PackageInfo {
    /// A model with every field empty and the default format.
    fn default() -> (r: Self)
        ensures
            r.file@ == Seq::<char>::empty(),
            r.name@ == Seq::<char>::empty(),
            r.version@ == Seq::<char>::empty(),
            r.release@ == Seq::<char>::empty(),
            r.arch@ == Seq::<char>::empty(),
            r.maintainer@ == Seq::<char>::empty(),
            r.dependencies@.len() == 0,
            r.group@ == Seq::<char>::empty(),
            r.summary@ == Seq::<char>::empty(),
            r.description@ == Seq::<char>::empty(),
            r.copyright@ == Seq::<char>::empty(),
            r.original_format == Format::Deb,
            r.distribution@ == Seq::<char>::empty(),
            r.binary_info@ == Seq::<char>::empty(),
            r.conffiles@.len() == 0,
            r.files@.len() == 0,
            r.changelog@ == Seq::<char>::empty(),
            r.use_scripts == false,
            forall|k: Script| r.scripts.spec_get(k) is None,
            r.file_info@.len() == 0,
    {
        PackageInfo {
            file: String::new(),
            name: String::new(),
            version: String::new(),
            release: String::new(),
            arch: String::new(),
            maintainer: String::new(),
            dependencies: Vec::new(),
            group: String::new(),
            summary: String::new(),
            description: String::new(),
            copyright: String::new(),
            original_format: Format::Deb,
            distribution: String::new(),
            binary_info: String::new(),
            conffiles: Vec::new(),
            files: Vec::new(),
            changelog: String::new(),
            use_scripts: false,
            scripts: ScriptMap::empty(),
            file_info: Vec::new(),
        }
    }
}

impl PackageInfo {
    /// Increments the release field by the given bump value.
    ///
    /// A release that is not a valid number counts as zero, so it is set to
    /// the bump value itself.
    pub fn increment_release(&mut self, bump: u32)
        requires
            match spec_parse_u32(old(self).release@) {
                Some(n) => n + bump <= u32::MAX,
                None => true,
            },
        ensures
            *final(self) == (PackageInfo { release: final(self).release, ..*old(self) }),
            final(self).release@ == match spec_parse_u32(old(self).release@) {
                Some(n) => spec_u32_chars((n + bump) as nat),
                None => spec_u32_chars(bump as nat),
            },
    {
        let rel = str_to_chars(self.release.as_str());
        let next = match parse_u32(&rel) {
            Some(n) => n + bump,
            None => bump,
        };
        let digits = u32_to_chars(next);
        self.release = chars_to_string(&digits);
    }
}

/// The name of the working directory a package is unpacked into:
/// `name-version`.
pub open spec fn spec_unpack_dir_name(info: PackageInfo) -> Seq<char> {
    info.name@ + "-"@ + info.version@
}

impl PackageInfo {
    /// The name of the working directory the package is unpacked into.
    /// The directory itself must be created with mode `0755`, whatever the
    /// parent directory's setuid/setgid bits say.
    pub fn unpack_dir_name(&self) -> (r: String)
        ensures
            r@ == spec_unpack_dir_name(*self),
    {
        let mut out = str_to_chars(self.name.as_str());
        crate::strutil::push_str_chars(&mut out, "-");
        crate::strutil::push_all(&mut out, &str_to_chars(self.version.as_str()));
        chars_to_string(&out)
    }
}

/// How much of what the converter does is reported: each external command,
/// or also each command's output.
#[derive(Debug, Clone, Copy, PartialEq, Eq, Structural)]
pub enum Verbosity {
    /// Report nothing.
    Normal,
    /// Report each command run.
    Verbose,
    /// Report each command run and its output.
    VeryVerbose,
}

/// Options that only concern generating a Debian target.
#[derive(Debug, Clone, PartialEq, Eq)]
pub struct DebArgs {
    /// A patch file to use instead of searching the patch directories.
    pub patch: Option<String>,
    /// Do not use patches.
    pub nopatch: bool,
    /// Use patches for other versions of the package too.
    pub anypatch: bool,
    /// Generate the build tree without an `.orig` copy.
    pub single: bool,
    /// Fix permissions and owners in the generated rules file.
    pub fixperms: bool,
    /// Test generated packages.
    pub test: bool,
}

/// Options that only concern reading a tgz source.
#[derive(Debug, Clone, PartialEq, Eq)]
pub struct TgzArgs {
    /// A description given on the command line.
    pub description: Option<String>,
    /// A version given on the command line.
    pub version: Option<String>,
}

} // verus!
