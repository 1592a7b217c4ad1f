//! Generating a Debian target: the model sanitized to Debian's grammars,
//! and the `debian/` metadata files rendered as text.
//!
//! Writing the rendered files to disk, copying the tree and running the
//! native build tool stay outside the library.

use vstd::prelude::*;

use crate::model::{FileEntry, PackageInfo};
use crate::scripts::Script;
use crate::strutil::{
    chars_to_string, find_char, lemma_find_first, push_all, push_str_chars, spec_find_first,
    spec_is_ws, spec_lines, spec_trim, spec_trim_end, spec_trim_start, spec_u32_chars,
    split_lines, str_to_chars, subvec, trim, trim_end, trim_start, u32_to_chars,
};
use crate::version::{deb_sanitize_release, deb_sanitize_version, spec_deb_release,
    spec_deb_version};
use crate::Format;
use crate::spec_format_name;

verus! {

/// The version of this tool, as written into generated metadata.
pub fn tool_version() -> (r: &'static str)
    ensures
        r@ == "0.1.0"@,
{
    "0.1.0"
}

/// The line with every tab widened to eight spaces.
pub open spec fn spec_expand_tabs(s: Seq<char>) -> Seq<char>
    decreases s.len(),
{
    if s.len() == 0 {
        Seq::empty()
    } else if s.last() == '\t' {
        spec_expand_tabs(s.drop_last()) + "        "@
    } else {
        spec_expand_tabs(s.drop_last()).push(s.last())
    }
}

/// Widens tabs to eight spaces.
pub fn expand_tabs(v: &Vec<char>) -> (r: Vec<char>)
    ensures
        r@ == spec_expand_tabs(v@),
{
    let len = v.len();
    let mut out: Vec<char> = Vec::new();
    let mut i: usize = 0;
    proof {
        assert(out@ =~= spec_expand_tabs(v@.subrange(0, 0)));
    }
    while i < len
        invariant
            i <= len,
            len == v@.len(),
            out@ == spec_expand_tabs(v@.subrange(0, i as int)),
        decreases len - i,
    {
        proof {
            assert(v@.subrange(0, i + 1 as int).drop_last() =~= v@.subrange(0, i as int));
            assert(v@.subrange(0, i + 1 as int).last() == v@[i as int]);
        }
        if v[i] == '\t' {
            push_str_chars(&mut out, "        ");
        } else {
            out.push(v[i]);
        }
        i += 1;
    }
    proof {
        assert(v@.subrange(0, len as int) =~= v@);
    }
    out
}

/// One description line made ready for a Debian control file: tabs
/// widened, trailing whitespace removed, an empty line turned into a `.`.
pub open spec fn spec_desc_line(s: Seq<char>) -> Seq<char> {
    let t = spec_trim_end(spec_expand_tabs(s));
    if t.len() == 0 {
        seq!['.']
    } else {
        t
    }
}

/// Description lines joined for a Debian control file: each line indented
/// by one space and ended with a newline.
pub open spec fn spec_desc_body(lines: Seq<Seq<char>>) -> Seq<char>
    decreases lines.len(),
{
    if lines.len() == 0 {
        Seq::empty()
    } else {
        seq![' '] + spec_desc_line(lines.first()) + seq!['\n'] + spec_desc_body(
            lines.drop_first(),
        )
    }
}

/// The lines with leading blank ones removed: a line is blank when, tabs
/// widened and trailing whitespace stripped, nothing remains.
pub open spec fn spec_drop_leading_blank(lines: Seq<Seq<char>>) -> Seq<Seq<char>>
    decreases lines.len(),
{
    if lines.len() > 0 && spec_trim_end(spec_expand_tabs(lines.first())).len() == 0 {
        spec_drop_leading_blank(lines.drop_first())
    } else {
        lines
    }
}

/// A description made ready for a Debian control file: leading blank lines
/// removed, the remaining lines reformatted, a closing ` .` line after a
/// non-empty body, and the note crediting the conversion.
pub open spec fn spec_deb_description(desc: Seq<char>, fmt: Format, ver: Seq<char>) -> Seq<char> {
    let body = spec_desc_body(spec_drop_leading_blank(spec_lines(desc)));
    let closed = if body.len() > 0 {
        body + " .\n"@
    } else {
        body
    };
    closed + " (Converted from a "@ + spec_format_name(fmt) + " package by alien version "@ + ver
        + ".)"@
}

/// Reformats a description for a Debian control file, as
/// [`spec_deb_description`] says.
pub fn deb_sanitize_description(desc: &str, fmt: Format) -> (r: String)
    ensures
        r@ == spec_deb_description(desc@, fmt, "0.1.0"@),
{
    let chars = str_to_chars(desc);
    let lines = split_lines(&chars);
    let len = lines.len();
    let mut body: Vec<char> = Vec::new();
    let ghost all = lines.deep_view();
    let mut i: usize = 0;
    proof {
        assert(all.skip(0) =~= all);
    }
    while i < len && trim_end(&expand_tabs(&lines[i])).len() == 0
        invariant
            i <= len,
            len == all.len(),
            all == lines.deep_view(),
            spec_drop_leading_blank(all) == spec_drop_leading_blank(all.skip(i as int)),
        decreases len - i,
    {
        proof {
            assert(all[i as int] == lines@[i as int].deep_view());
            assert(lines@[i as int].deep_view() =~= lines@[i as int]@);
            assert(all.skip(i as int).first() == all[i as int]);
            assert(all.skip(i as int).drop_first() =~= all.skip(i + 1 as int));
        }
        i += 1;
    }
    let ghost kept = all.skip(i as int);
    proof {
        if i < len {
            assert(all[i as int] == lines@[i as int].deep_view());
            assert(lines@[i as int].deep_view() =~= lines@[i as int]@);
            assert(kept.first() == all[i as int]);
        }
        assert(spec_drop_leading_blank(kept) == kept);
        assert(spec_drop_leading_blank(all) == kept);
        assert(body@ + spec_desc_body(kept) =~= spec_desc_body(kept));
    }
    while i < len
        invariant
            i <= len,
            len == all.len(),
            all == lines.deep_view(),
            kept == spec_drop_leading_blank(all),
            i <= len ==> body@ + spec_desc_body(all.skip(i as int)) == spec_desc_body(kept),
        decreases len - i,
    {
        proof {
            assert(all.skip(i as int).first() == all[i as int]);
            assert(all.skip(i as int).drop_first() =~= all.skip(i + 1 as int));
            assert(all[i as int] == lines@[i as int].deep_view());
            assert(lines@[i as int].deep_view() =~= lines@[i as int]@);
        }
        let ghost before = body@;
        body.push(' ');
        let t = trim_end(&expand_tabs(&lines[i]));
        if t.len() == 0 {
            body.push('.');
        } else {
            push_all(&mut body, &t);
        }
        body.push('\n');
        proof {
            assert(body@ =~= before + (seq![' '] + spec_desc_line(all[i as int]) + seq!['\n']));
            assert(before + ((seq![' '] + spec_desc_line(all[i as int]) + seq!['\n'])
                + spec_desc_body(all.skip(i + 1 as int))) =~= body@ + spec_desc_body(
                all.skip(i + 1 as int),
            ));
        }
        i += 1;
    }
    proof {
        assert(all.skip(len as int) =~= Seq::<Seq<char>>::empty());
        assert(body@ + spec_desc_body(all.skip(len as int)) =~= body@);
    }
    let mut out = body;
    if out.len() > 0 {
        push_str_chars(&mut out, " .\n");
    }
    push_str_chars(&mut out, " (Converted from a ");
    push_str_chars(&mut out, fmt.name());
    push_str_chars(&mut out, " package by alien version ");
    push_str_chars(&mut out, tool_version());
    push_str_chars(&mut out, ".)");
    chars_to_string(&out)
}

/// Makes the cloned model legal for the Debian target: the version and
/// release brought to Debian's grammar, the description reformatted.
pub fn deb_sanitize_info(info: &mut PackageInfo)
    ensures
        *final(info) == (PackageInfo {
            version: final(info).version,
            release: final(info).release,
            description: final(info).description,
            ..*old(info)
        }),
        final(info).version@ == spec_deb_version(old(info).version@),
        final(info).release@ == spec_deb_release(old(info).release@),
        final(info).description@ == spec_deb_description(
            old(info).description@,
            old(info).original_format,
            "0.1.0"@,
        ),
{
    info.version = deb_sanitize_version(info.version.as_str());
    info.release = deb_sanitize_release(info.release.as_str());
    info.description = deb_sanitize_description(info.description.as_str(), info.original_format);
}

/// A path quoted for a single-quoted shell string: each `'` becomes
/// `'"'"'`.
pub open spec fn spec_escape_quotes(s: Seq<char>) -> Seq<char>
    decreases s.len(),
{
    if s.len() == 0 {
        Seq::empty()
    } else if s.last() == '\'' {
        spec_escape_quotes(s.drop_last()) + "'\"'\"'"@
    } else {
        spec_escape_quotes(s.drop_last()).push(s.last())
    }
}

/// Escapes single quotes for use inside a single-quoted shell string.
pub fn escape_quotes(v: &Vec<char>) -> (r: Vec<char>)
    ensures
        r@ == spec_escape_quotes(v@),
{
    let len = v.len();
    let mut out: Vec<char> = Vec::new();
    let mut i: usize = 0;
    proof {
        assert(out@ =~= spec_escape_quotes(v@.subrange(0, 0)));
    }
    while i < len
        invariant
            i <= len,
            len == v@.len(),
            out@ == spec_escape_quotes(v@.subrange(0, i as int)),
        decreases len - i,
    {
        proof {
            assert(v@.subrange(0, i + 1 as int).drop_last() =~= v@.subrange(0, i as int));
            assert(v@.subrange(0, i + 1 as int).last() == v@[i as int]);
        }
        if v[i] == '\'' {
            push_str_chars(&mut out, "'\"'\"'");
        } else {
            out.push(v[i]);
        }
        i += 1;
    }
    proof {
        assert(v@.subrange(0, len as int) =~= v@);
    }
    out
}

/// The ownership fixup commands for one file: a `chown` line, and a
/// `chmod` line when a mode is recorded.
pub open spec fn spec_fixup_lines(e: FileEntry) -> Seq<char> {
    let f = spec_escape_quotes(e.path@);
    let chown = "\nchown '"@ + e.info.owner@ + "' '"@ + f + "'"@;
    match e.info.mode {
        Some(m) => chown + "\nchmod '"@ + spec_u32_chars(m as nat) + "' '"@ + f + "'"@,
        None => chown,
    }
}

/// The whole ownership fixup injection: a marker comment, then the fixup
/// commands of every recorded file.
pub open spec fn spec_fixup_injection(entries: Seq<FileEntry>) -> Seq<char>
    decreases entries.len(),
{
    if entries.len() == 0 {
        Seq::empty()
    } else {
        spec_fixup_lines(entries.first()) + spec_fixup_injection(entries.drop_first())
    }
}

/// A script recognized as a shell script: its first line is `#!` followed,
/// after optional whitespace, by exactly `/bin/sh` or `/bin/bash`.
pub open spec fn spec_is_shell_script(s: Seq<char>) -> bool {
    let first = match spec_find_first(s, '\n') {
        Some(i) => s.subrange(0, i),
        None => s,
    };
    first.len() >= 2 && first.subrange(0, 2) == "#!"@ && {
        let interp = spec_trim_start(first.subrange(2, first.len() as int));
        interp == "/bin/sh"@ || interp == "/bin/bash"@
    }
}

/// How patching an after-install script went.
pub enum PostinstPatch {
    /// The script, with the fixup commands inserted after its first line.
    Patched(String),
    /// The script was left alone: no fixups are recorded.
    Unchanged(String),
    /// The script is not a recognizable shell script, so no fixups can be
    /// inserted; a diagnostic is due, not a failure.
    NotShell(String),
}

/// The patched after-install script [`patch_postinst`] yields.
pub open spec fn spec_patched_postinst(old_script: Seq<char>, entries: Seq<FileEntry>) -> Seq<
    char,
> {
    let base = if old_script.len() == 0 {
        "#!/bin/sh\n"@
    } else {
        old_script
    };
    let index = match spec_find_first(base, '\n') {
        Some(i) => i,
        None => base.len() as int,
    };
    base.subrange(0, index) + "\n# alien added permissions fixup code"@ + spec_fixup_injection(
        entries,
    ) + base.subrange(index, base.len() as int)
}

/// Inserts ownership fixup commands into an after-install script.
///
/// With no recorded ownership data the script is unchanged. An empty
/// script becomes a minimal shell script first. A script whose first line
/// does not name a shell is refused, with a diagnostic owed rather than a
/// failure.
pub fn patch_postinst(old_script: String, entries: &Vec<FileEntry>) -> (r: PostinstPatch)
    ensures
        entries@.len() == 0 ==> (r matches PostinstPatch::Unchanged(s) && s@ == old_script@),
        entries@.len() > 0 && !spec_is_shell_script(
            if old_script@.len() == 0 {
                "#!/bin/sh\n"@
            } else {
                old_script@
            },
        ) ==> (r matches PostinstPatch::NotShell(s) && s@ == old_script@),
        entries@.len() > 0 && spec_is_shell_script(
            if old_script@.len() == 0 {
                "#!/bin/sh\n"@
            } else {
                old_script@
            },
        ) ==> (r matches PostinstPatch::Patched(s) && s@ == spec_patched_postinst(
            old_script@,
            entries@,
        )),
{
    if entries.len() == 0 {
        return PostinstPatch::Unchanged(old_script);
    }
    let base_chars = if old_script.as_str().unicode_len() == 0 {
        str_to_chars("#!/bin/sh\n")
    } else {
        str_to_chars(old_script.as_str())
    };
    let index = match find_char(&base_chars, '\n') {
        Some(i) => i,
        None => base_chars.len(),
    };
    proof {
        lemma_find_first(base_chars@, '\n');
    }
    let first = subvec(&base_chars, 0, index);
    proof {
        let base = base_chars@;
        let spec_first = match spec_find_first(base, '\n') {
            Some(i) => base.subrange(0, i),
            None => base,
        };
        assert(first@ =~= spec_first);
    }
    if !is_shell_first_line(&first) {
        return PostinstPatch::NotShell(old_script);
    }
    let mut out = subvec(&base_chars, 0, index);
    push_str_chars(&mut out, "\n# alien added permissions fixup code");
    let len = entries.len();
    let mut i: usize = 0;
    let ghost head = base_chars@.subrange(0, index as int)
        + "\n# alien added permissions fixup code"@;
    proof {
        assert(out@ =~= head);
        assert(head + spec_fixup_injection(entries@.subrange(0, 0)) =~= head);
    }
    while i < len
        invariant
            i <= len,
            len == entries@.len(),
            out@ == head + spec_fixup_injection(entries@.subrange(0, i as int)),
        decreases len - i,
    {
        let e = &entries[i];
        let f = escape_quotes(&str_to_chars(e.path.as_str()));
        let ghost before = out@;
        push_str_chars(&mut out, "\nchown '");
        push_all(&mut out, &str_to_chars(e.info.owner.as_str()));
        push_str_chars(&mut out, "' '");
        push_all(&mut out, &f);
        push_str_chars(&mut out, "'");
        match e.info.mode {
            Some(m) => {
                push_str_chars(&mut out, "\nchmod '");
                push_all(&mut out, &u32_to_chars(m));
                push_str_chars(&mut out, "' '");
                push_all(&mut out, &f);
                push_str_chars(&mut out, "'");
            },
            None => {},
        }
        proof {
            assert(out@ =~= before + spec_fixup_lines(entries@[i as int]));
            lemma_fixup_injection_snoc(entries@, i as int);
        }
        i += 1;
    }
    proof {
        assert(entries@.subrange(0, len as int) =~= entries@);
    }
    push_all(&mut out, &subvec(&base_chars, index, base_chars.len()));
    PostinstPatch::Patched(chars_to_string(&out))
}

/// Appending one entry to a prefix extends its injection by that entry's
/// lines.
proof fn lemma_fixup_injection_snoc(entries: Seq<FileEntry>, i: int)
    requires
        0 <= i < entries.len(),
    ensures
        spec_fixup_injection(entries.subrange(0, i + 1)) == spec_fixup_injection(
            entries.subrange(0, i),
        ) + spec_fixup_lines(entries[i]),
    decreases i,
{
    if i == 0 {
        assert(entries.subrange(0, 1).first() == entries[0]);
        assert(entries.subrange(0, 1).drop_first() =~= entries.subrange(0, 0));
        assert(spec_fixup_injection(entries.subrange(0, 0)) =~= Seq::<char>::empty());
        assert(spec_fixup_lines(entries[0]) + Seq::<char>::empty() =~= spec_fixup_lines(
            entries[0],
        ));
        assert(Seq::<char>::empty() + spec_fixup_lines(entries[0]) =~= spec_fixup_lines(
            entries[0],
        ));
    } else {
        lemma_fixup_injection_snoc(entries.drop_first(), i - 1);
        assert(entries.subrange(0, i + 1).first() == entries[0]);
        assert(entries.subrange(0, i + 1).drop_first() =~= entries.drop_first().subrange(
            0,
            i,
        ));
        assert(entries.subrange(0, i).first() == entries[0]);
        assert(entries.subrange(0, i).drop_first() =~= entries.drop_first().subrange(0, i - 1));
        assert(entries.drop_first()[i - 1] == entries[i]);
        assert((spec_fixup_lines(entries[0]) + spec_fixup_injection(
            entries.drop_first().subrange(0, i - 1),
        )) + spec_fixup_lines(entries[i]) =~= spec_fixup_lines(entries[0]) + (
        spec_fixup_injection(entries.drop_first().subrange(0, i - 1)) + spec_fixup_lines(
            entries[i],
        )));
    }
}

/// A dependency list rendered for a control file: `, ` before each entry.
pub open spec fn spec_deps_list(deps: Seq<Seq<char>>) -> Seq<char>
    decreases deps.len(),
{
    if deps.len() == 0 {
        Seq::empty()
    } else {
        spec_deps_list(deps.drop_last()) + ", "@ + deps.last()
    }
}

/// The changelog file of a Debian target.
pub open spec fn spec_deb_changelog(
    name: Seq<char>,
    version: Seq<char>,
    release: Seq<char>,
    fmt: Format,
    changelog: Seq<char>,
    realname: Seq<char>,
    email: Seq<char>,
    date: Seq<char>,
) -> Seq<char> {
    name + " ("@ + version + "-"@ + release + ") experimental; urgency=low\n\n  * Converted from "@
        + spec_format_name(fmt) + " format to .deb by alien version "@ + "0.1.0"@ + "\n\n  "@
        + changelog + "\n\n  -- "@ + realname + " <"@ + email + ">  "@ + date + "\n\n"@
}

/// Renders the changelog file of a Debian target.
pub fn deb_changelog(info: &PackageInfo, realname: &str, email: &str, date: &str) -> (r: String)
    ensures
        r@ == spec_deb_changelog(
            info.name@,
            info.version@,
            info.release@,
            info.original_format,
            info.changelog@,
            realname@,
            email@,
            date@,
        ),
{
    let mut out: Vec<char> = Vec::new();
    push_all(&mut out, &str_to_chars(info.name.as_str()));
    proof {
        assert(Seq::<char>::empty() + info.name@ =~= info.name@);
    }
    push_str_chars(&mut out, " (");
    push_all(&mut out, &str_to_chars(info.version.as_str()));
    push_str_chars(&mut out, "-");
    push_all(&mut out, &str_to_chars(info.release.as_str()));
    push_str_chars(&mut out, ") experimental; urgency=low\n\n  * Converted from ");
    push_str_chars(&mut out, info.original_format.name());
    push_str_chars(&mut out, " format to .deb by alien version ");
    push_str_chars(&mut out, tool_version());
    push_str_chars(&mut out, "\n\n  ");
    push_all(&mut out, &str_to_chars(info.changelog.as_str()));
    push_str_chars(&mut out, "\n\n  -- ");
    push_all(&mut out, &str_to_chars(realname));
    push_str_chars(&mut out, " <");
    push_all(&mut out, &str_to_chars(email));
    push_str_chars(&mut out, ">  ");
    push_all(&mut out, &str_to_chars(date));
    push_str_chars(&mut out, "\n\n");
    chars_to_string(&out)
}

/// The control file of a Debian target.
pub open spec fn spec_deb_control(
    name: Seq<char>,
    arch: Seq<char>,
    deps: Seq<Seq<char>>,
    summary: Seq<char>,
    description: Seq<char>,
    realname: Seq<char>,
    email: Seq<char>,
) -> Seq<char> {
    "Source: "@ + name + "\nSection: alien\nPriority: extra\nMaintainer: "@ + realname + " <"@
        + email + ">\n\nPackage: "@ + name + "\nArchitecture: "@ + arch
        + "\nDepends: ${shlibs:Depends}"@ + spec_deps_list(deps) + "\nDescription: "@ + summary
        + "\n"@ + description + "\n\n"@
}

/// Renders the control file of a Debian target.
pub fn deb_control(info: &PackageInfo, realname: &str, email: &str) -> (r: String)
    ensures
        r@ == spec_deb_control(
            info.name@,
            info.arch@,
            info.dependencies.deep_view(),
            info.summary@,
            info.description@,
            realname@,
            email@,
        ),
{
    let mut out: Vec<char> = Vec::new();
    push_str_chars(&mut out, "Source: ");
    proof {
        assert(Seq::<char>::empty() + "Source: "@ =~= "Source: "@);
    }
    push_all(&mut out, &str_to_chars(info.name.as_str()));
    push_str_chars(&mut out, "\nSection: alien\nPriority: extra\nMaintainer: ");
    push_all(&mut out, &str_to_chars(realname));
    push_str_chars(&mut out, " <");
    push_all(&mut out, &str_to_chars(email));
    push_str_chars(&mut out, ">\n\nPackage: ");
    push_all(&mut out, &str_to_chars(info.name.as_str()));
    push_str_chars(&mut out, "\nArchitecture: ");
    push_all(&mut out, &str_to_chars(info.arch.as_str()));
    push_str_chars(&mut out, "\nDepends: ${shlibs:Depends}");
    let ghost head = out@;
    let dlen = info.dependencies.len();
    let mut i: usize = 0;
    proof {
        assert(out@ =~= head + spec_deps_list(info.dependencies.deep_view().subrange(0, 0)));
    }
    while i < dlen
        invariant
            i <= dlen,
            dlen == info.dependencies@.len(),
            out@ == head + spec_deps_list(info.dependencies.deep_view().subrange(0, i as int)),
        decreases dlen - i,
    {
        proof {
            let dv = info.dependencies.deep_view();
            assert(dv.subrange(0, i + 1 as int).drop_last() =~= dv.subrange(0, i as int));
            assert(dv.subrange(0, i + 1 as int).last() == dv[i as int]);
            assert(dv[i as int] == info.dependencies@[i as int].deep_view());
        }
        push_str_chars(&mut out, ", ");
        push_all(&mut out, &str_to_chars(info.dependencies[i].as_str()));
        i += 1;
    }
    proof {
        let dv = info.dependencies.deep_view();
        assert(dv.subrange(0, dlen as int) =~= dv);
    }
    push_str_chars(&mut out, "\nDescription: ");
    push_all(&mut out, &str_to_chars(info.summary.as_str()));
    push_str_chars(&mut out, "\n");
    push_all(&mut out, &str_to_chars(info.description.as_str()));
    push_str_chars(&mut out, "\n\n");
    chars_to_string(&out)
}

/// The copyright file of a Debian target.
pub open spec fn spec_deb_copyright(
    fmt: Format,
    copyright: Seq<char>,
    binary_info: Seq<char>,
    date: Seq<char>,
) -> Seq<char> {
    "This package was debianized by the alien program by converting\na binary ."@
        + spec_format_name(fmt) + " package on "@ + date + "\n\nCopyright: "@ + copyright
        + "\n\nInformation from the binary package:\n"@ + binary_info + "\n\n"@
}

/// Renders the copyright file of a Debian target.
pub fn deb_copyright(info: &PackageInfo, date: &str) -> (r: String)
    ensures
        r@ == spec_deb_copyright(
            info.original_format,
            info.copyright@,
            info.binary_info@,
            date@,
        ),
{
    let mut out: Vec<char> = Vec::new();
    push_str_chars(
        &mut out,
        "This package was debianized by the alien program by converting\na binary .",
    );
    proof {
        assert(Seq::<char>::empty()
            + "This package was debianized by the alien program by converting\na binary ."@
            =~= "This package was debianized by the alien program by converting\na binary ."@);
    }
    push_str_chars(&mut out, info.original_format.name());
    push_str_chars(&mut out, " package on ");
    push_all(&mut out, &str_to_chars(date));
    push_str_chars(&mut out, "\n\nCopyright: ");
    push_all(&mut out, &str_to_chars(info.copyright.as_str()));
    push_str_chars(&mut out, "\n\nInformation from the binary package:\n");
    push_all(&mut out, &str_to_chars(info.binary_info.as_str()));
    push_str_chars(&mut out, "\n\n");
    chars_to_string(&out)
}

/// The conffiles file of a Debian target: one line per conffile, skipping
/// paths under `/etc`, which the target's own helper tooling manages.
pub open spec fn spec_deb_conffiles(conffiles: Seq<Seq<char>>) -> Seq<char>
    decreases conffiles.len(),
{
    if conffiles.len() == 0 {
        Seq::empty()
    } else {
        spec_deb_conffiles(conffiles.drop_last()) + (
        if crate::strutil::spec_starts_with(conffiles.last(), "/etc"@) {
            Seq::<char>::empty()
        } else {
            conffiles.last() + seq!['\n']
        })
    }
}

/// Renders the conffiles file of a Debian target; `None` when no line
/// remains.
pub fn deb_conffiles(info: &PackageInfo) -> (r: Option<String>)
    ensures
        match r {
            Some(s) => s@ == spec_deb_conffiles(info.conffiles.deep_view()) && s@.len() > 0,
            None => spec_deb_conffiles(info.conffiles.deep_view()).len() == 0,
        },
{
    let mut out: Vec<char> = Vec::new();
    let len = info.conffiles.len();
    let mut i: usize = 0;
    proof {
        assert(out@ =~= spec_deb_conffiles(info.conffiles.deep_view().subrange(0, 0)));
    }
    while i < len
        invariant
            i <= len,
            len == info.conffiles@.len(),
            out@ == spec_deb_conffiles(info.conffiles.deep_view().subrange(0, i as int)),
        decreases len - i,
    {
        proof {
            let cv = info.conffiles.deep_view();
            assert(cv.subrange(0, i + 1 as int).drop_last() =~= cv.subrange(0, i as int));
            assert(cv.subrange(0, i + 1 as int).last() == cv[i as int]);
            assert(cv[i as int] == info.conffiles@[i as int].deep_view());
        }
        let c = str_to_chars(info.conffiles[i].as_str());
        proof {
            reveal_strlit("/etc");
        }
        if !crate::strutil::starts_with_str(&c, "/etc") {
            push_all(&mut out, &c);
            out.push('\n');
            proof {
                let cv = info.conffiles.deep_view();
                assert(out@ =~= spec_deb_conffiles(cv.subrange(0, i as int)) + (cv[i as int]
                    + seq!['\n']));
            }
        }
        i += 1;
    }
    proof {
        let cv = info.conffiles.deep_view();
        assert(cv.subrange(0, len as int) =~= cv);
    }
    if out.len() == 0 {
        None
    } else {
        Some(chars_to_string(&out))
    }
}

/// The compat file of a Debian target: the debhelper compatibility level.
pub open spec fn spec_deb_compat(level: u32) -> Seq<char> {
    spec_u32_chars(level as nat) + seq!['\n']
}

/// Renders the compat file of a Debian target.
pub fn deb_compat(level: u32) -> (r: String)
    ensures
        r@ == spec_deb_compat(level),
{
    let mut out = u32_to_chars(level);
    out.push('\n');
    chars_to_string(&out)
}

/// The rules file of a Debian target: a minimal debhelper makefile, with
/// the permissions fixup step commented out unless asked for.
pub open spec fn spec_deb_rules(fixperms: bool) -> Seq<char> {
    "#!/usr/bin/make -f\n# debian/rules for alien\n\nPACKAGE = $(shell dh_listpackages)\n\nbuild:\n\tdh_testdir\n\nclean:\n\tdh_testdir\n\tdh_testroot\n\tdh_clean -d\n\nbinary-arch: build\n\tdh_testdir\n\tdh_testroot\n\tdh_prep\n\tdh_installdirs\n\n\tdh_installdocs\n\tdh_installchangelogs\n\n# Copy the packages' files.\n\tfind . -maxdepth 1 -mindepth 1 -not -name debian -print0 | \\\n\txargs -0 -r -i cp -a {} debian/$(PACKAGE)\n\n#\n# If you need to move files around in debian/$(PACKAGE) or do some\n# binary patching, do it here\n#\n\n\n# This has been known to break on some wacky binaries.\n#\tdh_strip\n\tdh_compress\n"@
        + (if fixperms {
        ""@
    } else {
        "#"@
    })
        + "\tdh_fixperms\n\tdh_makeshlibs\n\tdh_installdeb\n\t-dh_shlibdeps\n\tdh_gencontrol\n\tdh_md5sums\n\tdh_builddeb\n\nbinary: binary-indep binary-arch\n.PHONY: build clean binary-indep binary-arch binary\n\n"@
}

/// Renders the rules file of a Debian target.
pub fn deb_rules(fixperms: bool) -> (r: String)
    ensures
        r@ == spec_deb_rules(fixperms),
{
    let mut out: Vec<char> = Vec::new();
    push_str_chars(
        &mut out,
        "#!/usr/bin/make -f\n# debian/rules for alien\n\nPACKAGE = $(shell dh_listpackages)\n\nbuild:\n\tdh_testdir\n\nclean:\n\tdh_testdir\n\tdh_testroot\n\tdh_clean -d\n\nbinary-arch: build\n\tdh_testdir\n\tdh_testroot\n\tdh_prep\n\tdh_installdirs\n\n\tdh_installdocs\n\tdh_installchangelogs\n\n# Copy the packages' files.\n\tfind . -maxdepth 1 -mindepth 1 -not -name debian -print0 | \\\n\txargs -0 -r -i cp -a {} debian/$(PACKAGE)\n\n#\n# If you need to move files around in debian/$(PACKAGE) or do some\n# binary patching, do it here\n#\n\n\n# This has been known to break on some wacky binaries.\n#\tdh_strip\n\tdh_compress\n",
    );
    proof {
        assert(out@ =~= spec_deb_rules(fixperms).subrange(0, out@.len() as int));
    }
    if !fixperms {
        push_str_chars(&mut out, "#");
    }
    push_str_chars(
        &mut out,
        "\tdh_fixperms\n\tdh_makeshlibs\n\tdh_installdeb\n\t-dh_shlibdeps\n\tdh_gencontrol\n\tdh_md5sums\n\tdh_builddeb\n\nbinary: binary-indep binary-arch\n.PHONY: build clean binary-indep binary-arch binary\n\n",
    );
    proof {
        reveal_strlit("");
        assert(out@ =~= spec_deb_rules(fixperms));
    }
    chars_to_string(&out)
}

/// The file name the Debian build step will produce:
/// `name_version-release_arch.deb`.
pub open spec fn spec_deb_output_name(info: PackageInfo) -> Seq<char> {
    info.name@ + "_"@ + info.version@ + "-"@ + info.release@ + "_"@ + info.arch@ + ".deb"@
}

/// The file name the Debian build step will produce.
pub fn deb_output_name(info: &PackageInfo) -> (r: String)
    ensures
        r@ == spec_deb_output_name(*info),
{
    let mut out: Vec<char> = Vec::new();
    push_all(&mut out, &str_to_chars(info.name.as_str()));
    proof {
        assert(Seq::<char>::empty() + info.name@ =~= info.name@);
    }
    push_str_chars(&mut out, "_");
    push_all(&mut out, &str_to_chars(info.version.as_str()));
    push_str_chars(&mut out, "-");
    push_all(&mut out, &str_to_chars(info.release.as_str()));
    push_str_chars(&mut out, "_");
    push_all(&mut out, &str_to_chars(info.arch.as_str()));
    push_str_chars(&mut out, ".deb");
    chars_to_string(&out)
}

/// A pair of directories whose contents move during generation: packages
/// shipping the old pre-FHS location are moved to the current one, when
/// the new location is still free.
pub struct DirMove {
    /// The old location.
    pub from: String,
    /// The current location.
    pub to: String,
}

/// The moves to FHS-compliant locations a Debian target attempts.
pub fn deb_dir_map() -> (r: Vec<DirMove>)
    ensures
        r@.len() == 3,
        r@[0].from@ == "/usr/man"@ && r@[0].to@ == "/usr/share/man"@,
        r@[1].from@ == "/usr/info"@ && r@[1].to@ == "/usr/share/info"@,
        r@[2].from@ == "/usr/doc"@ && r@[2].to@ == "/usr/doc/info"@,
{
    let mut v: Vec<DirMove> = Vec::new();
    v.push(DirMove { from: "/usr/man".to_owned(), to: "/usr/share/man".to_owned() });
    v.push(DirMove { from: "/usr/info".to_owned(), to: "/usr/share/info".to_owned() });
    v.push(DirMove { from: "/usr/doc".to_owned(), to: "/usr/doc/info".to_owned() });
    v
}

/// The glob pattern of a Debianization patch for an exact version and
/// release: `dir/name_version-release*.diff.gz`.
pub open spec fn spec_patch_pattern_full(dir: Seq<char>, info: PackageInfo) -> Seq<char> {
    dir + "/"@ + info.name@ + "_"@ + info.version@ + "-"@ + info.release@ + "*.diff.gz"@
}

/// Renders the exact-version patch pattern.
pub fn patch_pattern_full(dir: &str, info: &PackageInfo) -> (r: String)
    ensures
        r@ == spec_patch_pattern_full(dir@, *info),
{
    let mut out = str_to_chars(dir);
    push_str_chars(&mut out, "/");
    push_all(&mut out, &str_to_chars(info.name.as_str()));
    push_str_chars(&mut out, "_");
    push_all(&mut out, &str_to_chars(info.version.as_str()));
    push_str_chars(&mut out, "-");
    push_all(&mut out, &str_to_chars(info.release.as_str()));
    push_str_chars(&mut out, "*.diff.gz");
    chars_to_string(&out)
}

/// The glob pattern of a patch for the version without the release:
/// `dir/name_version*.diff.gz`.
pub open spec fn spec_patch_pattern_version(dir: Seq<char>, info: PackageInfo) -> Seq<char> {
    dir + "/"@ + info.name@ + "_"@ + info.version@ + "*.diff.gz"@
}

/// Renders the version-only patch pattern.
pub fn patch_pattern_version(dir: &str, info: &PackageInfo) -> (r: String)
    ensures
        r@ == spec_patch_pattern_version(dir@, *info),
{
    let mut out = str_to_chars(dir);
    push_str_chars(&mut out, "/");
    push_all(&mut out, &str_to_chars(info.name.as_str()));
    push_str_chars(&mut out, "_");
    push_all(&mut out, &str_to_chars(info.version.as_str()));
    push_str_chars(&mut out, "*.diff.gz");
    chars_to_string(&out)
}

/// The glob pattern of a patch for any version of the package:
/// `dir/name_*.diff.gz`.
pub open spec fn spec_patch_pattern_any(dir: Seq<char>, info: PackageInfo) -> Seq<char> {
    dir + "/"@ + info.name@ + "_*.diff.gz"@
}

/// Renders the any-version patch pattern.
pub fn patch_pattern_any(dir: &str, info: &PackageInfo) -> (r: String)
    ensures
        r@ == spec_patch_pattern_any(dir@, *info),
{
    let mut out = str_to_chars(dir);
    push_str_chars(&mut out, "/");
    push_all(&mut out, &str_to_chars(info.name.as_str()));
    push_str_chars(&mut out, "_*.diff.gz");
    chars_to_string(&out)
}

/// The sequence with every whitespace character removed.
pub open spec fn spec_remove_ws(s: Seq<char>) -> Seq<char>
    decreases s.len(),
{
    if s.len() == 0 {
        Seq::empty()
    } else if spec_is_ws(s.last()) {
        spec_remove_ws(s.drop_last())
    } else {
        spec_remove_ws(s.drop_last()).push(s.last())
    }
}

/// The version a patched changelog's first line carries between its first
/// parentheses, whitespace removed; `None` when the parentheses are
/// missing or out of order.
pub open spec fn spec_changelog_version(line: Seq<char>) -> Option<Seq<char>> {
    match (spec_find_first(line, '('), spec_find_first(line, ')')) {
        (Some(a), Some(b)) => if a + 1 <= b {
            Some(spec_remove_ws(line.subrange(a + 1, b)))
        } else {
            None
        },
        _ => None,
    }
}

/// Reads the version out of a changelog's first line, as
/// [`spec_changelog_version`] says. After a Debianization patch supplied
/// the `debian/` directory, this is where the version comes from.
pub fn changelog_version(line: &str) -> (r: Option<String>)
    ensures
        (match r {
            Some(v) => Some(v@),
            None => None,
        }) == spec_changelog_version(line@),
{
    let chars = str_to_chars(line);
    let a = match find_char(&chars, '(') {
        Some(a) => a,
        None => {
            return None;
        },
    };
    let b = match find_char(&chars, ')') {
        Some(b) => b,
        None => {
            return None;
        },
    };
    proof {
        lemma_find_first(chars@, '(');
        lemma_find_first(chars@, ')');
    }
    if a + 1 > b {
        return None;
    }
    let span = subvec(&chars, a + 1, b);
    let len = span.len();
    let mut out: Vec<char> = Vec::new();
    let mut i: usize = 0;
    proof {
        assert(out@ =~= spec_remove_ws(span@.subrange(0, 0)));
    }
    while i < len
        invariant
            i <= len,
            len == span@.len(),
            out@ == spec_remove_ws(span@.subrange(0, i as int)),
        decreases len - i,
    {
        proof {
            assert(span@.subrange(0, i + 1 as int).drop_last() =~= span@.subrange(0, i as int));
            assert(span@.subrange(0, i + 1 as int).last() == span@[i as int]);
        }
        if !crate::strutil::is_ws(span[i]) {
            out.push(span[i]);
        }
        i += 1;
    }
    proof {
        assert(span@.subrange(0, len as int) =~= span@);
    }
    Some(chars_to_string(&out))
}

/// A named script file to be written into the `debian/` directory.
pub struct ScriptFile {
    /// The file's name.
    pub name: String,
    /// The script body.
    pub body: String,
}

/// The mathematical value of a script file.
pub open spec fn script_files_view(fs: Seq<ScriptFile>) -> Seq<(Seq<char>, Seq<char>)> {
    Seq::new(fs.len(), |i: int| (fs[i].name@, fs[i].body@))
}

/// The after-install script before patching: the stored script, or empty.
pub open spec fn spec_postinst_source(info: PackageInfo) -> Seq<char> {
    match info.scripts.spec_get(Script::AfterInstall) {
        Some(s) => s,
        None => Seq::empty(),
    }
}

/// The base an ownership patch works on: an empty source becomes a minimal
/// shell script.
pub open spec fn spec_postinst_base(info: PackageInfo) -> Seq<char> {
    if spec_postinst_source(info).len() == 0 {
        "#!/bin/sh\n"@
    } else {
        spec_postinst_source(info)
    }
}

/// The after-install script as written: patched with ownership fixups when
/// any are recorded and the script is recognizably shell.
pub open spec fn spec_postinst_final(info: PackageInfo) -> Seq<char> {
    if info.file_info@.len() == 0 {
        spec_postinst_source(info)
    } else if spec_is_shell_script(spec_postinst_base(info)) {
        spec_patched_postinst(spec_postinst_source(info), info.file_info@)
    } else {
        spec_postinst_source(info)
    }
}

/// A fixup injection was due but refused: the script is not recognizably
/// shell, and a diagnostic is owed.
pub open spec fn spec_postinst_diagnostic(info: PackageInfo) -> bool {
    info.file_info@.len() > 0 && !spec_is_shell_script(spec_postinst_base(info))
}

/// One optional script file: present when the script of that kind exists
/// and is not blank.
pub open spec fn spec_maybe_script(info: PackageInfo, k: Script, name: Seq<char>) -> Seq<
    (Seq<char>, Seq<char>),
> {
    match info.scripts.spec_get(k) {
        Some(b) => if spec_trim(b).len() > 0 {
            seq![(name, b)]
        } else {
            Seq::empty()
        },
        None => Seq::empty(),
    }
}

/// The script files a Debian target writes: the possibly patched
/// after-install script first, then, only when scripts are carried over,
/// the three remaining kinds; blank scripts are skipped.
pub open spec fn spec_deb_scripts(info: PackageInfo) -> Seq<(Seq<char>, Seq<char>)> {
    let post = spec_postinst_final(info);
    (if spec_trim(post).len() > 0 {
        seq![("postinst"@, post)]
    } else {
        Seq::empty()
    }) + (if info.use_scripts {
        spec_maybe_script(info, Script::BeforeInstall, "preinst"@) + spec_maybe_script(
            info,
            Script::AfterUninstall,
            "postrm"@,
        ) + spec_maybe_script(info, Script::BeforeUninstall, "prerm"@)
    } else {
        Seq::empty()
    })
}

/// Tests whether a string is blank.
fn is_blank(s: &str) -> (r: bool)
    ensures
        r == (spec_trim(s@).len() == 0),
{
    let t = trim(&str_to_chars(s));
    t.len() == 0
}

/// Selects and patches the script files a Debian target writes, as
/// [`spec_deb_scripts`] says; the flag reports a refused fixup injection.
pub fn deb_script_files(info: &PackageInfo) -> (r: (Vec<ScriptFile>, bool))
    ensures
        script_files_view(r.0@) == spec_deb_scripts(*info),
        r.1 == spec_postinst_diagnostic(*info),
{
    let source = match info.scripts.get(Script::AfterInstall) {
        Some(s) => s.clone(),
        None => String::new(),
    };
    let mut diagnostic = false;
    let post = match patch_postinst(source, &info.file_info) {
        PostinstPatch::Patched(s) => s,
        PostinstPatch::Unchanged(s) => s,
        PostinstPatch::NotShell(s) => {
            diagnostic = true;
            s
        },
    };
    let mut out: Vec<ScriptFile> = Vec::new();
    if !is_blank(post.as_str()) {
        out.push(ScriptFile { name: "postinst".to_owned(), body: post });
    }
    let ghost first_part = script_files_view(out@);
    proof {
        assert(first_part =~= (if spec_trim(spec_postinst_final(*info)).len() > 0 {
            seq![("postinst"@, spec_postinst_final(*info))]
        } else {
            Seq::<(Seq<char>, Seq<char>)>::empty()
        }));
    }
    if info.use_scripts {
        match info.scripts.get(Script::BeforeInstall) {
            Some(b) => {
                if !is_blank(b.as_str()) {
                    let body = b.clone();
                    out.push(ScriptFile { name: "preinst".to_owned(), body });
                }
            },
            None => {},
        }
        let ghost part2 = script_files_view(out@);
        proof {
            assert(part2 =~= first_part + spec_maybe_script(
                *info,
                Script::BeforeInstall,
                "preinst"@,
            ));
        }
        match info.scripts.get(Script::AfterUninstall) {
            Some(b) => {
                if !is_blank(b.as_str()) {
                    let body = b.clone();
                    out.push(ScriptFile { name: "postrm".to_owned(), body });
                }
            },
            None => {},
        }
        let ghost part3 = script_files_view(out@);
        proof {
            assert(part3 =~= part2 + spec_maybe_script(
                *info,
                Script::AfterUninstall,
                "postrm"@,
            ));
        }
        match info.scripts.get(Script::BeforeUninstall) {
            Some(b) => {
                if !is_blank(b.as_str()) {
                    let body = b.clone();
                    out.push(ScriptFile { name: "prerm".to_owned(), body });
                }
            },
            None => {},
        }
        proof {
            assert(script_files_view(out@) =~= part3 + spec_maybe_script(
                *info,
                Script::BeforeUninstall,
                "prerm"@,
            ));
            assert(script_files_view(out@) =~= spec_deb_scripts(*info));
        }
    } else {
        proof {
            assert(first_part + Seq::<(Seq<char>, Seq<char>)>::empty() =~= first_part);
        }
    }
    (out, diagnostic)
}

/// The rendered metadata files of a Debian target, ready to be written
/// into the `debian/` directory.
pub struct DebMetadata {
    /// The changelog file.
    pub changelog: String,
    /// The control file.
    pub control: String,
    /// The copyright file.
    pub copyright: String,
    /// The conffiles file, when any line remains.
    pub conffiles: Option<String>,
    /// The compat file.
    pub compat: String,
    /// The rules file; it must be written executable.
    pub rules: String,
    /// The lifecycle script files.
    pub scripts: Vec<ScriptFile>,
    /// A fixup injection was refused; a diagnostic is owed.
    pub fixup_diagnostic: bool,
}

/// A single-use generator for the Debian target format: the sanitized
/// model together with the rendered metadata files.
pub struct DebTarget {
    /// The sanitized model the files were rendered from.
    pub info: PackageInfo,
    /// The working directory the payload was unpacked into.
    pub unpacked_dir: String,
    /// The rendered metadata files.
    pub metadata: DebMetadata,
}

impl DebTarget {
    /// Sanitizes the cloned model for the Debian grammars and renders every
    /// metadata file of the `debian/` directory.
    ///
    /// The caller supplies the packager's name, email address, and the
    /// date line, which come from the host environment.
    pub fn new(
        info: PackageInfo,
        unpacked_dir: &str,
        realname: &str,
        email: &str,
        date: &str,
        fixperms: bool,
    ) -> (r: DebTarget)
        ensures
            r.info == (PackageInfo {
                version: r.info.version,
                release: r.info.release,
                description: r.info.description,
                ..info
            }),
            r.info.version@ == spec_deb_version(info.version@),
            r.info.release@ == spec_deb_release(info.release@),
            r.info.description@ == spec_deb_description(
                info.description@,
                info.original_format,
                "0.1.0"@,
            ),
            r.unpacked_dir@ == unpacked_dir@,
            r.metadata.changelog@ == spec_deb_changelog(
                r.info.name@,
                r.info.version@,
                r.info.release@,
                r.info.original_format,
                r.info.changelog@,
                realname@,
                email@,
                date@,
            ),
            r.metadata.control@ == spec_deb_control(
                r.info.name@,
                r.info.arch@,
                r.info.dependencies.deep_view(),
                r.info.summary@,
                r.info.description@,
                realname@,
                email@,
            ),
            r.metadata.copyright@ == spec_deb_copyright(
                r.info.original_format,
                r.info.copyright@,
                r.info.binary_info@,
                date@,
            ),
            (match r.metadata.conffiles {
                Some(s) => s@ == spec_deb_conffiles(r.info.conffiles.deep_view()) && s@.len() > 0,
                None => spec_deb_conffiles(r.info.conffiles.deep_view()).len() == 0,
            }),
            r.metadata.compat@ == spec_deb_compat(7),
            r.metadata.rules@ == spec_deb_rules(fixperms),
            script_files_view(r.metadata.scripts@) == spec_deb_scripts(r.info),
            r.metadata.fixup_diagnostic == spec_postinst_diagnostic(r.info),
    {
        let mut info = info;
        deb_sanitize_info(&mut info);
        let changelog = deb_changelog(&info, realname, email, date);
        let control = deb_control(&info, realname, email);
        let copyright = deb_copyright(&info, date);
        let conffiles = deb_conffiles(&info);
        let compat = deb_compat(7);
        let rules = deb_rules(fixperms);
        let (scripts, fixup_diagnostic) = deb_script_files(&info);
        DebTarget {
            info,
            unpacked_dir: unpacked_dir.to_owned(),
            metadata: DebMetadata {
                changelog,
                control,
                copyright,
                conffiles,
                compat,
                rules,
                scripts,
                fixup_diagnostic,
            },
        }
    }
}

/// Recognizes a shell interpreter line.
fn is_shell_first_line(first: &Vec<char>) -> (r: bool)
    ensures
        r == (first@.len() >= 2 && first@.subrange(0, 2) == "#!"@ && {
            let interp = spec_trim_start(first@.subrange(2, first@.len() as int));
            interp == "/bin/sh"@ || interp == "/bin/bash"@
        }),
{
    proof {
        reveal_strlit("#!");
    }
    if !crate::strutil::starts_with_str(first, "#!") {
        return false;
    }
    let interp = trim_start(&subvec(first, 2, first.len()));
    crate::strutil::chars_eq_str(&interp, "/bin/sh") || crate::strutil::chars_eq_str(
        &interp,
        "/bin/bash",
    )
}

} // verus!
