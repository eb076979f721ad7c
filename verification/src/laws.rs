//! What holds across the crate's functions, whatever their inputs.
//!
//! The laws here relate the models that the functions are specified by. Those
//! in the modules below say what each function's result is in terms of its
//! inputs, down to the characters.
pub mod manifest;
pub mod process;
pub mod scoop;
pub mod script;
pub mod text;

use crate::manifest::{
    accepted_bucket, accepted_homepage, accepted_version, plain_char, plain_name,
};
use crate::paths::{
    buf_bytes, entry_name, joined, longer_entry_name, one_component, parts_under, path_parts,
    PathPart,
};
use crate::process::{powershell_argv, quiet, scrubbed_env, step_after, Poll};
use crate::profile::popover_pieces;
use crate::scoop::{
    ancestor, answers, apps_dir, detected, goes_by_app_dir, scoop_layout, shims_of, sits_in,
    ScoopApp,
};
use crate::script::{
    mark_relaunch, name_tools, program, relaunch, separated, start_transcript, statements,
    try_update, wait_for_tray, SEPARATOR,
};
use crate::text::{ascii_digit, decimal, quoted, trim_end, trim_start, trimmed, white_space};
use std::path::Path;
use vstd::prelude::*;
use vstd::utf8::{encode_utf8, encode_utf8_decode_utf8, encode_utf8_valid_utf8};

verus! {

/// How PowerShell reads on after the opening quote of a single-quoted
/// string: two quotes stand for one, a quote alone ends the string. Gives
/// the string and what follows it; `None` when the string does not end.
pub open spec fn read_quoted(s: Seq<char>) -> Option<(Seq<char>, Seq<char>)>
    decreases s.len(),
{
    if s.len() == 0 {
        None
    } else if s[0] != '\'' {
        match read_quoted(s.skip(1)) {
            Some((text, rest)) => Some((seq![s[0]] + text, rest)),
            None => None,
        }
    } else if s.len() >= 2 && s[1] == '\'' {
        match read_quoted(s.skip(2)) {
            Some((text, rest)) => Some((seq!['\''] + text, rest)),
            None => None,
        }
    } else {
        Some((seq![], s.skip(1)))
    }
}

/// Quoting works from the front as it does from the back.
proof fn quoted_from_front(text: Seq<char>)
    requires
        text.len() > 0,
    ensures
        quoted(text) == (if text[0] == '\'' {
            seq!['\'', '\'']
        } else {
            seq![text[0]]
        }) + quoted(text.skip(1)),
    decreases text.len(),
{
    let front = if text[0] == '\'' {
        seq!['\'', '\'']
    } else {
        seq![text[0]]
    };
    if text.len() == 1 {
        assert(text.drop_last() =~= seq![]);
        assert(text.skip(1) =~= seq![]);
        assert(quoted(text) =~= front + quoted(text.skip(1)));
    } else {
        quoted_from_front(text.drop_last());
        assert(text.drop_last().skip(1) =~= text.skip(1).drop_last());
        assert(quoted(text) =~= front + quoted(text.skip(1)));
    }
}

/// Whatever text is quoted, PowerShell reads that text back, and the string
/// ends at the closing quote and not before.
pub proof fn quoted_text_reads_back(text: Seq<char>, rest: Seq<char>)
    requires
        rest.len() > 0 ==> rest[0] != '\'',
    ensures
        read_quoted(quoted(text) + seq!['\''] + rest) == Some((text, rest)),
    decreases text.len(),
{
    let s = quoted(text) + seq!['\''] + rest;
    if text.len() == 0 {
        assert(s =~= seq!['\''] + rest);
        assert(s.skip(1) =~= rest);
        assert(text =~= seq![]);
    } else {
        quoted_from_front(text);
        quoted_text_reads_back(text.skip(1), rest);
        let tail = quoted(text.skip(1)) + seq!['\''] + rest;
        if text[0] == '\'' {
            assert(s.skip(2) =~= tail);
        } else {
            assert(s.skip(1) =~= tail);
        }
        assert(seq![text[0]] + text.skip(1) =~= text);
    }
}

/// The first text of a separated list starts it, and the last one ends it.
proof fn separated_keeps_its_ends(list: Seq<Seq<char>>, separator: Seq<char>)
    requires
        list.len() > 0,
    ensures
        list.first().is_prefix_of(separated(list, separator)),
        list.last().is_suffix_of(separated(list, separator)),
    decreases list.len(),
{
    if list.len() > 1 {
        separated_keeps_its_ends(list.drop_last(), separator);
        let whole = separated(list, separator);
        let head = separated(list.drop_last(), separator);
        let first = list.first();
        assert(list.drop_last().first() == first);
        assert(whole.subrange(0, first.len() as int) =~= head.subrange(0, first.len() as int));
        assert(whole.subrange(whole.len() - list.last().len(), whole.len() as int) =~= list.last());
    } else {
        assert(list[0].subrange(0, list[0].len() as int) =~= list[0]);
    }
}

/// The update program transcribes everything: starting the transcript, to
/// the file that was asked for, is the first thing it does, and stopping it
/// the last.
pub proof fn program_is_transcribed(
    name: Seq<char>,
    exe: Seq<char>,
    dir: Seq<char>,
    tray_pid: nat,
    log: Seq<char>,
)
    ensures
        start_transcript(log).is_prefix_of(program(name, exe, dir, tray_pid, log)),
        "Stop-Transcript"@.is_suffix_of(program(name, exe, dir, tray_pid, log)),
        read_quoted(start_transcript(log).skip("Start-Transcript -Path '"@.len() as int)) == Some(
            (log, " -Force"@),
        ),
{
    separated_keeps_its_ends(statements(name, exe, dir, tray_pid, log), SEPARATOR@);
    reveal_strlit("Start-Transcript -Path '");
    reveal_strlit("' -Force");
    reveal_strlit(" -Force");
    quoted_text_reads_back(log, " -Force"@);
    assert("' -Force"@ =~= seq!['\''] + " -Force"@);
    assert(start_transcript(log).skip("Start-Transcript -Path '"@.len() as int) =~= quoted(log)
        + seq!['\''] + " -Force"@);
}

/// The relaunch starts the very exe in the very directory that were asked
/// for, whatever characters their paths hold.
pub proof fn relaunch_names_read_back(exe: Seq<char>, dir: Seq<char>)
    ensures
        ({
            let after_exe = " -WorkingDirectory '"@ + quoted(dir) + "'"@;
            &&& read_quoted(relaunch(exe, dir).skip("Start-Process -FilePath '"@.len() as int))
                == Some((exe, after_exe))
            &&& read_quoted(after_exe.skip(" -WorkingDirectory '"@.len() as int)) == Some(
                (dir, Seq::<char>::empty()),
            )
        }),
{
    let after_exe = " -WorkingDirectory '"@ + quoted(dir) + "'"@;
    reveal_strlit("Start-Process -FilePath '");
    reveal_strlit("' -WorkingDirectory '");
    reveal_strlit(" -WorkingDirectory '");
    reveal_strlit("'");
    quoted_text_reads_back(exe, after_exe);
    quoted_text_reads_back(dir, seq![]);
    assert("' -WorkingDirectory '"@ =~= seq!['\''] + " -WorkingDirectory '"@);
    assert(relaunch(exe, dir).skip("Start-Process -FilePath '"@.len() as int) =~= quoted(exe)
        + seq!['\''] + after_exe);
    assert(after_exe.skip(" -WorkingDirectory '"@.len() as int) =~= quoted(dir) + seq!['\'']
        + seq![]);
}

/// Whatever came of the update, the program goes on to set the relaunch
/// marker and then to start the tray, both after the update was tried.
pub proof fn relaunch_follows_the_update(
    name: Seq<char>,
    exe: Seq<char>,
    dir: Seq<char>,
    tray_pid: nat,
    log: Seq<char>,
)
    ensures
        program(name, exe, dir, tray_pid, log) == separated(
            seq![
                start_transcript(log),
                name_tools(),
                wait_for_tray(tray_pid),
                "$updated = $false"@,
                try_update(name),
                "Write-Host \"updated: $updated\""@,
            ],
            SEPARATOR@,
        ) + SEPARATOR@ + mark_relaunch() + SEPARATOR@ + relaunch(exe, dir) + SEPARATOR@
            + "Stop-Transcript"@,
{
    reveal_with_fuel(separated, 4);
    let all = statements(name, exe, dir, tray_pid, log);
    let update = seq![
        start_transcript(log),
        name_tools(),
        wait_for_tray(tray_pid),
        "$updated = $false"@,
        try_update(name),
        "Write-Host \"updated: $updated\""@,
    ];
    assert(all.drop_last().drop_last().drop_last() =~= update);
}

/// `scoop update` is handed the very app name, whatever characters it holds.
pub proof fn update_names_the_app(name: Seq<char>)
    ensures
        exists|before: Seq<char>, after: Seq<char>|
            #![trigger before + quoted(name) + "'"@ + after]
            {
                &&& try_update(name) == before + quoted(name) + "'"@ + after
                &&& "scoop update '"@.is_suffix_of(before)
                &&& read_quoted(quoted(name) + "'"@ + after) == Some((name, after))
            },
{
    let opening = "for ($attempt = 1; $attempt -le 3 -and -not $updated; $attempt++) { Write-Host \"scoop update '"@;
    let middle = "' (attempt $attempt)\"; scoop update '"@;
    let closing = "' 2>&1 | Out-Host; if ($LASTEXITCODE -eq 0) { $updated = $true } else { Start-Sleep -Seconds 5 } }"@;
    reveal_strlit("' (attempt $attempt)\"; scoop update '");
    reveal_strlit("' 2>&1 | Out-Host; if ($LASTEXITCODE -eq 0) { $updated = $true } else { Start-Sleep -Seconds 5 } }");
    reveal_strlit("'");
    reveal_strlit("scoop update '");
    let before = opening + quoted(name) + middle;
    let after = closing.skip(1);
    quoted_text_reads_back(name, after);
    assert("'"@ =~= seq!['\'']);
    assert(closing =~= "'"@ + after);
    assert(try_update(name) =~= before + quoted(name) + "'"@ + after);
    let command = "scoop update '"@;
    assert(before.subrange(before.len() - command.len(), before.len() as int) =~= command);
}

/// The number that a run of decimal digits stands for.
pub open spec fn decimal_value(s: Seq<char>) -> nat
    decreases s.len(),
{
    if s.len() == 0 {
        0
    } else {
        (10 * decimal_value(s.drop_last()) + (s.last() as int - '0' as int)) as nat
    }
}

/// A number in decimal is digits only, and reads back as that number.
pub proof fn decimal_reads_back(n: nat)
    ensures
        decimal(n).len() > 0,
        forall|i: int| 0 <= i < decimal(n).len() ==> ascii_digit(#[trigger] decimal(n)[i]),
        decimal_value(decimal(n)) == n,
    decreases n,
{
    if n < 10 {
        assert(decimal(n).drop_last() =~= seq![]);
        assert(decimal_value(decimal(n).drop_last()) == 0);
    } else {
        decimal_reads_back(n / 10);
        assert(decimal(n).drop_last() =~= decimal(n / 10));
    }
}

/// A plain name is one path component, and stays one with a file extension.
pub proof fn plain_names_are_entries(name: Seq<char>)
    requires
        plain_name(name),
    ensures
        entry_name(name),
        entry_name(name + ".json"@),
        entry_name(name + ".exe"@),
{
    assert forall|i: int| 0 <= i < name.len() implies name[i] != '/' && name[i] != '\\' && name[i]
        != ':' by {
        assert(plain_char(name[i]));
    }
    reveal_strlit(".json");
    reveal_strlit(".exe");
    longer_entry_name(name + ".json"@);
    longer_entry_name(name + ".exe"@);
}

/// An accepted bucket cannot lead out of Scoop's tree: joined onto a path it
/// is one component more.
pub proof fn accepted_buckets_are_entries(field: Seq<char>)
    ensures
        accepted_bucket(field) matches Some(bucket) ==> entry_name(bucket),
{
    if plain_name(trimmed(field)) {
        plain_names_are_entries(trimmed(field));
    }
}

/// Whatever a reader gives, a bucket that is read from `install.json` is
/// plain and one component, so its manifest cannot lie outside the buckets.
pub proof fn read_buckets_are_entries<F: Fn(&Path) -> Option<String>>(
    app: ScoopApp,
    read: F,
    bucket: Seq<char>,
)
    requires
        app.bucket_read(read, Some(bucket)),
    ensures
        plain_name(bucket),
        entry_name(bucket),
{
    plain_names_are_entries(bucket);
}

/// The layout does not depend on the version directory or on the exe's own
/// name.
proof fn layout_goes_by_app_dir(
    app_dir: Seq<PathPart>,
    version: PathPart,
    file: PathPart,
    other_version: PathPart,
    other_file: PathPart,
)
    requires
        version.is_entry(),
        file.is_entry(),
        other_version.is_entry(),
        other_file.is_entry(),
    ensures
        scoop_layout(app_dir.push(version).push(file)) == scoop_layout(
            app_dir.push(other_version).push(other_file),
        ),
{
    let a = app_dir.push(version).push(file);
    let b = app_dir.push(other_version).push(other_file);
    if a.len() >= 4 {
        let n = a.len() as int;
        assert(a[n - 3] == b[n - 3] && a[n - 4] == b[n - 4]);
        assert(a.take(n - 4) =~= b.take(n - 4));
    }
}

/// The junction path and every version's path belong to the same app: of two
/// exes two entries below one directory, either both sit in an app or
/// neither does, and the apps have one name and one root.
pub proof fn every_version_is_the_same_app(
    app_dir: Seq<PathPart>,
    version: PathPart,
    file: PathPart,
    other_version: PathPart,
    other_file: PathPart,
    exe: Seq<u8>,
    other_exe: Seq<u8>,
    app: ScoopApp,
    other_app: ScoopApp,
)
    requires
        version.is_entry(),
        file.is_entry(),
        other_version.is_entry(),
        other_file.is_entry(),
        path_parts(exe) == app_dir.push(version).push(file),
        path_parts(other_exe) == app_dir.push(other_version).push(other_file),
    ensures
        scoop_layout(path_parts(exe)) == scoop_layout(path_parts(other_exe)),
        sits_in(exe, app) && sits_in(other_exe, other_app) ==> {
            &&& app.name@ == other_app.name@
            &&& path_parts(buf_bytes(&app.root)) == path_parts(buf_bytes(&other_app.root))
        },
{
    layout_goes_by_app_dir(app_dir, version, file, other_version, other_file);
}

/// Neither the version directory nor the exe's own name affects detection:
/// `dir/version/file` and `dir/other_version/other_file` are detected alike,
/// with the same name and the very same root, by any probe that always
/// answers the same about the same path.
pub proof fn every_version_is_detected_alike<F: Fn(&Path) -> bool>(
    probe: F,
    dir: Seq<u8>,
    version: Seq<char>,
    file: Seq<char>,
    other_version: Seq<char>,
    other_file: Seq<char>,
    r: Option<ScoopApp>,
    other_r: Option<ScoopApp>,
)
    requires
        one_component(version),
        one_component(file),
        one_component(other_version),
        one_component(other_file),
        forall|path: Seq<u8>|
            !(#[trigger] answers(probe, path, true) && #[trigger] answers(probe, path, false)),
        ({
            let exe = joined(joined(dir, version), file);
            let other_exe = joined(joined(dir, other_version), other_file);
            &&& detected(probe, exe, r)
            &&& goes_by_app_dir(exe)
            &&& detected(probe, other_exe, other_r)
            &&& goes_by_app_dir(other_exe)
        }),
    ensures
        match r {
            Some(app) => other_r matches Some(other_app) && {
                &&& app.name@ == other_app.name@
                &&& buf_bytes(&app.root) == buf_bytes(&other_app.root)
            },
            None => other_r is None,
        },
{
    let exe = joined(joined(dir, version), file);
    let other_exe = joined(joined(dir, other_version), other_file);
    assert(ancestor(exe, 2) == ancestor(other_exe, 2));
    ancestors_above(exe);
    ancestors_above(other_exe);
    if ancestor(exe, 2) is Some {
        let app_dir = path_parts(ancestor(exe, 2)->0);
        let a = path_parts(exe);
        let b = path_parts(other_exe);
        let n = a.len() as int;
        assert(a =~= app_dir.push(a[n - 2]).push(a[n - 1])) by {
            assert(a =~= a.take(n - 2).push(a[n - 2]).push(a[n - 1]));
        }
        assert(b =~= app_dir.push(b[n - 2]).push(b[n - 1])) by {
            assert(b.len() == n);
            assert(b =~= b.take(n - 2).push(b[n - 2]).push(b[n - 1]));
        }
        layout_goes_by_app_dir(app_dir, a[n - 2], a[n - 1], b[n - 2], b[n - 1]);
    }
}

/// Going up four levels is going up two, twice.
proof fn ancestors_above(path: Seq<u8>)
    ensures
        ancestor(path, 4) == match ancestor(path, 2) {
            Some(above) => ancestor(above, 2),
            None => None,
        },
{
    reveal_with_fuel(ancestor, 5);
}

/// A path with the parts of an app's `current_exe_path` has the layout of
/// that app.
proof fn current_exe_has_layout(app: ScoopApp, exe: Seq<u8>, bin: Seq<char>)
    requires
        app.name@.len() > 0,
        path_parts(exe) == parts_under(buf_bytes(&app.root), app.current_exe_pieces(bin)),
    ensures
        scoop_layout(path_parts(exe)) == Some((app.name@, path_parts(buf_bytes(&app.root)))),
{
    let parts = path_parts(exe);
    let n = parts.len() as int;
    let apps = encode_utf8("apps"@);
    let name = encode_utf8(app.name@);
    encode_utf8_valid_utf8(app.name@);
    encode_utf8_decode_utf8(app.name@);
    assert(app.current_exe_pieces(bin).len() == 4);
    assert(parts[n - 4] == PathPart::Named(apps));
    assert(parts[n - 3] == PathPart::Named(name));
    assert(parts.take(n - 4) =~= path_parts(buf_bytes(&app.root)));
    assert(apps_dir(apps));
}

/// Detection undoes `current_exe_path`: on an exe with the parts of the path
/// that an app gives, and a probe that does not deny the `shims`, it finds
/// that app's name and root.
pub proof fn detection_undoes_current_exe_path<F: Fn(&Path) -> bool>(
    probe: F,
    app: ScoopApp,
    bin: Seq<char>,
    exe: Seq<u8>,
    r: Option<ScoopApp>,
)
    requires
        app.name@.len() > 0,
        path_parts(exe) == parts_under(buf_bytes(&app.root), app.current_exe_pieces(bin)),
        detected(probe, exe, r),
        !answers(probe, shims_of(exe), false),
    ensures
        r matches Some(found) && {
            &&& found.name@ == app.name@
            &&& path_parts(buf_bytes(&found.root)) == path_parts(buf_bytes(&app.root))
        },
{
    current_exe_has_layout(app, exe, bin);
}

/// Two cache roots share a popover directory only if they are one path, and
/// the directory is always exactly two components below its root.
pub proof fn popover_dirs_follow_their_roots(root: Seq<u8>, other_root: Seq<u8>)
    ensures
        parts_under(root, popover_pieces()) == parts_under(other_root, popover_pieces())
            <==> path_parts(root) == path_parts(other_root),
        parts_under(root, popover_pieces()).len() == path_parts(root).len() + 2,
        parts_under(root, popover_pieces()).take(path_parts(root).len() as int) == path_parts(root),
{
    let a = parts_under(root, popover_pieces());
    let b = parts_under(other_root, popover_pieces());
    assert(popover_pieces().len() == 2);
    assert(a.take(a.len() - 2) =~= path_parts(root));
    assert(b.take(b.len() - 2) =~= path_parts(other_root));
}

/// Trimming leaves no white space at either end.
proof fn trimmed_ends(s: Seq<char>)
    ensures
        trimmed(s).len() > 0 ==> !white_space(trimmed(s)[0]) && !white_space(trimmed(s).last()),
{
    trim_start_starts(s);
    trim_end_is_prefix(trim_start(s));
}

/// Trimming the start leaves no white space there.
proof fn trim_start_starts(s: Seq<char>)
    ensures
        trim_start(s).len() > 0 ==> !white_space(trim_start(s)[0]),
    decreases s.len(),
{
    if s.len() > 0 && white_space(s[0]) {
        trim_start_starts(s.drop_first());
    }
}

/// Trimming the end keeps the start, and leaves no white space at the end.
proof fn trim_end_is_prefix(s: Seq<char>)
    ensures
        trim_end(s).len() <= s.len(),
        trim_end(s).len() > 0 ==> trim_end(s)[0] == s[0] && !white_space(trim_end(s).last()),
    decreases s.len(),
{
    if s.len() > 0 && white_space(s.last()) {
        trim_end_is_prefix(s.drop_last());
    }
}

/// What was accepted is accepted again, unchanged.
pub proof fn accepted_fields_settle(field: Seq<char>)
    ensures
        trimmed(trimmed(field)) == trimmed(field),
        accepted_bucket(field) matches Some(bucket) ==> accepted_bucket(bucket) == Some(bucket),
        accepted_version(field) matches Some(version) ==> accepted_version(version) == Some(
            version,
        ),
        accepted_homepage(field) matches Some(homepage) ==> accepted_homepage(homepage) == Some(
            homepage,
        ),
{
    trimmed_ends(field);
    let t = trimmed(field);
    assert(trim_start(t) == t);
    assert(trim_end(t) == t);
}

/// White space at the end makes no difference to trimming.
proof fn trim_start_of_blank_end(s: Seq<char>, c: char)
    requires
        white_space(c),
    ensures
        trim_end(trim_start(s.push(c))) == trim_end(trim_start(s)),
    decreases s.len(),
{
    if s.len() > 0 && white_space(s[0]) {
        trim_start_of_blank_end(s.drop_first(), c);
        assert(s.push(c).drop_first() =~= s.drop_first().push(c));
    } else if s.len() > 0 {
        assert(s.push(c)[0] == s[0]);
        assert(s.push(c).drop_last() =~= s);
    } else {
        assert(s.push(c).drop_first() =~= s);
        assert(trim_start(s.push(c)) == trim_start(s));
    }
}

/// White space around a field makes no difference to what is accepted.
pub proof fn blanks_around_a_field_are_ignored(field: Seq<char>, c: char)
    requires
        white_space(c),
    ensures
        trimmed(field.push(c)) == trimmed(field),
        trimmed(seq![c] + field) == trimmed(field),
        accepted_bucket(field.push(c)) == accepted_bucket(field),
        accepted_bucket(seq![c] + field) == accepted_bucket(field),
        accepted_version(field.push(c)) == accepted_version(field),
        accepted_version(seq![c] + field) == accepted_version(field),
        accepted_homepage(field.push(c)) == accepted_homepage(field),
        accepted_homepage(seq![c] + field) == accepted_homepage(field),
{
    trim_start_of_blank_end(field, c);
    assert((seq![c] + field).drop_first() =~= field);
}

/// Every PowerShell call runs quietly as `powershell.exe`, with no handles
/// and no window, is handed the script as its last argument, and does not
/// see the parent shell's module path.
pub proof fn powershell_runs_quietly(script: Seq<char>)
    ensures
        quiet(powershell_argv(script)) matches Some(command) && {
            &&& command.program == "powershell.exe"@
            &&& command.args.last() == script
            &&& command.removed_env.contains("PSModulePath"@)
            &&& command.stdin is Null && command.stdout is Null && command.stderr is Null
            &&& !command.console_window
        },
{
    assert(scrubbed_env()[0] == "PSModulePath"@);
}

/// A run goes on only while the child runs and its time is not up, succeeds
/// only when the child did, and kills only a child whose time is up. So once
/// the time is up, the next look at the child ends the run.
pub proof fn runs_end_by_their_timeout(program: Seq<char>, timeout_nanos: u128, poll: Poll)
    ensures
        step_after(program, timeout_nanos, poll) is Sleep <==> (poll matches Poll::Running {
            elapsed_nanos,
        } && elapsed_nanos < timeout_nanos),
        step_after(program, timeout_nanos, poll) is Kill <==> (poll matches Poll::Running {
            elapsed_nanos,
        } && elapsed_nanos >= timeout_nanos),
        step_after(program, timeout_nanos, poll) is Succeed <==> (poll matches Poll::Exited {
            success,
            ..
        } && success),
{
}

} // verus!
