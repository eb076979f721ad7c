//! The update program, character by character.
use crate::paths::{buf_bytes, display_chars, joined, joined_all, path_bytes};
use crate::scoop::{ScoopApp, TRAY_BIN};
use crate::script::{mark_relaunch, program, separated, statements, update_program, RELAUNCH_ENV};
use crate::text::{decimal, quoted};
use std::path::Path;
use vstd::prelude::*;
use vstd::utf8::{decode_utf8, valid_utf8};

verus! {

/// The update program is one fixed text but for the quoted log, name, exe
/// and directory, and the tray's process id in decimal: it starts the
/// transcript, names its tools, waits for the tray for as long as it takes,
/// tries the update up to three times five seconds apart, and in any case
/// sets the marker, starts the tray and ends the transcript.
pub proof fn programs_follow_one_template(
    name: &str,
    exe: &str,
    dir: &str,
    tray_pid: u32,
    log: &str,
    r: String,
)
    requires
        call_ensures(update_program, (name, exe, dir, tray_pid, log), r),
    ensures
        r@ == ("Start-Transcript -Path '"@ + quoted(log@) + "' -Force"@) + "; "@
            + "Write-Host (\"PowerShell $($PSVersionTable.PSVersion); git: \" + (Get-Command git -ErrorAction SilentlyContinue).Source)"@
            + "; "@ + ("Wait-Process -Id "@ + decimal(tray_pid as nat)
            + " -ErrorAction SilentlyContinue"@) + "; "@ + "$updated = $false"@ + "; "@ + (
        "for ($attempt = 1; $attempt -le 3 -and -not $updated; $attempt++) { Write-Host \"scoop update '"@
            + quoted(name@) + "' (attempt $attempt)\"; scoop update '"@ + quoted(name@)
            + "' 2>&1 | Out-Host; if ($LASTEXITCODE -eq 0) { $updated = $true } else { Start-Sleep -Seconds 5 } }"@)
            + "; "@ + "Write-Host \"updated: $updated\""@ + "; "@
            + "$env:AIUB_TRAY_RELAUNCH = '1'"@ + "; "@ + ("Start-Process -FilePath '"@ + quoted(exe@)
            + "' -WorkingDirectory '"@ + quoted(dir@) + "'"@) + "; "@ + "Stop-Transcript"@,
{
    written_out(name@, exe@, dir@, tray_pid as nat, log@);
}

/// The update program, written out.
proof fn written_out(
    name: Seq<char>,
    exe: Seq<char>,
    dir: Seq<char>,
    tray_pid: nat,
    log: Seq<char>,
)
    ensures
        program(name, exe, dir, tray_pid, log) == ("Start-Transcript -Path '"@ + quoted(log)
            + "' -Force"@) + "; "@
            + "Write-Host (\"PowerShell $($PSVersionTable.PSVersion); git: \" + (Get-Command git -ErrorAction SilentlyContinue).Source)"@
            + "; "@ + ("Wait-Process -Id "@ + decimal(tray_pid)
            + " -ErrorAction SilentlyContinue"@) + "; "@ + "$updated = $false"@ + "; "@ + (
        "for ($attempt = 1; $attempt -le 3 -and -not $updated; $attempt++) { Write-Host \"scoop update '"@
            + quoted(name) + "' (attempt $attempt)\"; scoop update '"@ + quoted(name)
            + "' 2>&1 | Out-Host; if ($LASTEXITCODE -eq 0) { $updated = $true } else { Start-Sleep -Seconds 5 } }"@)
            + "; "@ + "Write-Host \"updated: $updated\""@ + "; "@
            + "$env:AIUB_TRAY_RELAUNCH = '1'"@ + "; "@ + ("Start-Process -FilePath '"@ + quoted(exe)
            + "' -WorkingDirectory '"@ + quoted(dir) + "'"@) + "; "@ + "Stop-Transcript"@,
{
    assert(mark_relaunch() == "$env:AIUB_TRAY_RELAUNCH = '1'"@) by {
        reveal_strlit("$env:");
        reveal_strlit("AIUB_TRAY_RELAUNCH");
        reveal_strlit(" = '1'");
        reveal_strlit("$env:AIUB_TRAY_RELAUNCH = '1'");
        assert("$env:"@ + RELAUNCH_ENV@ + " = '1'"@ =~= "$env:AIUB_TRAY_RELAUNCH = '1'"@);
    }
    let all = statements(name, exe, dir, tray_pid, log);
    reveal_with_fuel(separated, 10);
    let eight = all.drop_last();
    let seven = eight.drop_last();
    let six = seven.drop_last();
    let five = six.drop_last();
    let four = five.drop_last();
    let three = four.drop_last();
    let two = three.drop_last();
    let one = two.drop_last();
    assert(one.len() == 1 && one[0] == all[0]);
}

/// An app's update script is that program for the app's name, the tray's exe
/// and the directory behind the `current` junction, the process id, and the
/// log, with each path as it prints.
pub proof fn scripts_update_their_app(app: &ScoopApp, tray_pid: u32, log: &Path, r: String)
    requires
        call_ensures(ScoopApp::update_script, (app, tray_pid, log), r),
    ensures
        ({
            let dir = joined(
                joined(joined(buf_bytes(&app.root), "apps"@), app.name@),
                "current"@,
            );
            let exe = joined(dir, "ai-usagebar-tray.exe"@);
            &&& valid_utf8(exe) ==> display_chars(exe) == decode_utf8(exe)
            &&& valid_utf8(dir) ==> display_chars(dir) == decode_utf8(dir)
            &&& valid_utf8(path_bytes(log)) ==> display_chars(path_bytes(log)) == decode_utf8(
                path_bytes(log),
            )
            &&& r@ == ("Start-Transcript -Path '"@ + quoted(display_chars(path_bytes(log)))
                + "' -Force"@) + "; "@
                + "Write-Host (\"PowerShell $($PSVersionTable.PSVersion); git: \" + (Get-Command git -ErrorAction SilentlyContinue).Source)"@
                + "; "@ + ("Wait-Process -Id "@ + decimal(tray_pid as nat)
                + " -ErrorAction SilentlyContinue"@) + "; "@ + "$updated = $false"@ + "; "@ + (
            "for ($attempt = 1; $attempt -le 3 -and -not $updated; $attempt++) { Write-Host \"scoop update '"@
                + quoted(app.name@) + "' (attempt $attempt)\"; scoop update '"@ + quoted(app.name@)
                + "' 2>&1 | Out-Host; if ($LASTEXITCODE -eq 0) { $updated = $true } else { Start-Sleep -Seconds 5 } }"@)
                + "; "@ + "Write-Host \"updated: $updated\""@ + "; "@
                + "$env:AIUB_TRAY_RELAUNCH = '1'"@ + "; "@ + ("Start-Process -FilePath '"@ + quoted(
                display_chars(exe),
            ) + "' -WorkingDirectory '"@ + quoted(display_chars(dir)) + "'"@) + "; "@
                + "Stop-Transcript"@
        }),
{
    let dir = joined(joined(joined(buf_bytes(&app.root), "apps"@), app.name@), "current"@);
    let exe = joined(dir, "ai-usagebar-tray.exe"@);
    let dir_pieces = app.current_dir_pieces();
    let exe_pieces = app.current_exe_pieces(TRAY_BIN@);
    assert(TRAY_BIN@ + ".exe"@ == "ai-usagebar-tray.exe"@) by {
        reveal_strlit("ai-usagebar-tray");
        reveal_strlit(".exe");
        reveal_strlit("ai-usagebar-tray.exe");
        assert(TRAY_BIN@ + ".exe"@ =~= "ai-usagebar-tray.exe"@);
    }
    reveal_with_fuel(joined_all, 5);
    assert(dir_pieces.drop_last().drop_last().drop_last().len() == 0);
    assert(exe_pieces.drop_last() =~= dir_pieces);
    assert(app.bytes_at(dir_pieces) == dir);
    assert(app.bytes_at(exe_pieces) == exe);
    written_out(
        app.name@,
        display_chars(exe),
        display_chars(dir),
        tray_pid as nat,
        display_chars(path_bytes(log)),
    );
}

} // verus!
