//! The PowerShell program that updates the tray through Scoop.
use crate::text::{decimal, quote, quoted, texts, to_decimal};
use vstd::prelude::*;

verus! {

/// The variable that tells a relaunched tray to wait for the single-instance
/// mutex.
pub const RELAUNCH_ENV: &'static str = "AIUB_TRAY_RELAUNCH";

/// What stands between two statements.
pub const SEPARATOR: &'static str = "; ";

/// `list` with `separator` between each two of its texts.
pub open spec fn separated(list: Seq<Seq<char>>, separator: Seq<char>) -> Seq<char>
    decreases list.len(),
{
    if list.len() == 0 {
        seq![]
    } else if list.len() == 1 {
        list[0]
    } else {
        separated(list.drop_last(), separator) + separator + list.last()
    }
}

/// Transcribes what follows to the file `log`.
pub open spec fn start_transcript(log: Seq<char>) -> Seq<char> {
    "Start-Transcript -Path '"@ + quoted(log) + "' -Force"@
}

/// Names the PowerShell and git in use.
pub open spec fn name_tools() -> Seq<char> {
    "Write-Host (\"PowerShell $($PSVersionTable.PSVersion); git: \" + (Get-Command git -ErrorAction SilentlyContinue).Source)"@
}

/// Waits for the tray to exit.
pub open spec fn wait_for_tray(tray_pid: nat) -> Seq<char> {
    "Wait-Process -Id "@ + decimal(tray_pid) + " -ErrorAction SilentlyContinue"@
}

/// Tries `scoop update <name>` up to three times, five seconds apart.
pub open spec fn try_update(name: Seq<char>) -> Seq<char> {
    "for ($attempt = 1; $attempt -le 3 -and -not $updated; $attempt++) { Write-Host \"scoop update '"@
        + quoted(name) + "' (attempt $attempt)\"; scoop update '"@ + quoted(name)
        + "' 2>&1 | Out-Host; if ($LASTEXITCODE -eq 0) { $updated = $true } else { Start-Sleep -Seconds 5 } }"@
}

/// Sets the relaunch marker.
pub open spec fn mark_relaunch() -> Seq<char> {
    "$env:"@ + RELAUNCH_ENV@ + " = '1'"@
}

/// Starts the tray at `exe` in the directory `dir`.
pub open spec fn relaunch(exe: Seq<char>, dir: Seq<char>) -> Seq<char> {
    "Start-Process -FilePath '"@ + quoted(exe) + "' -WorkingDirectory '"@ + quoted(dir) + "'"@
}

/// The statements of the update program, in order.
pub open spec fn statements(
    name: Seq<char>,
    exe: Seq<char>,
    dir: Seq<char>,
    tray_pid: nat,
    log: Seq<char>,
) -> Seq<Seq<char>> {
    seq![
        start_transcript(log),
        name_tools(),
        wait_for_tray(tray_pid),
        "$updated = $false"@,
        try_update(name),
        "Write-Host \"updated: $updated\""@,
        mark_relaunch(),
        relaunch(exe, dir),
        "Stop-Transcript"@,
    ]
}

/// The update program.
pub open spec fn program(
    name: Seq<char>,
    exe: Seq<char>,
    dir: Seq<char>,
    tray_pid: nat,
    log: Seq<char>,
) -> Seq<char> {
    separated(statements(name, exe, dir, tray_pid, log), SEPARATOR@)
}

/// Puts `separator` between each two texts of `list`.
fn separate(list: &Vec<String>, separator: &str) -> (r: String)
    ensures
        r@ == separated(texts(list@), separator@),
{
    let mut out = String::new();
    let mut i: usize = 0;
    assert(texts(list@).take(0).len() == 0);
    while i < list.len()
        invariant
            i <= list@.len(),
            out@ == separated(texts(list@).take(i as int), separator@),
        decreases list@.len() - i,
    {
        proof {
            let next = texts(list@).take(i + 1);
            assert(next.drop_last() =~= texts(list@).take(i as int));
            assert(next.last() == list@[i as int]@);
            if i == 0 {
                assert(out@ =~= seq![]);
                assert(out@ + list@[0]@ =~= list@[0]@);
            }
        }
        if i > 0 {
            out.append(separator);
        }
        out.append(list[i].as_str());
        i += 1;
    }
    assert(texts(list@).take(i as int) =~= texts(list@));
    out
}

/// One PowerShell program that waits for the tray `tray_pid` to exit, runs
/// `scoop update <name>` (which refuses while the exe is running), and
/// starts the updated tray at `exe` with the relaunch marker set. Everything
/// is transcribed to `log`.
pub fn update_program(name: &str, exe: &str, dir: &str, tray_pid: u32, log: &str) -> (r: String)
    ensures
        r@ == program(name@, exe@, dir@, tray_pid as nat, log@),
{
    let quoted_name = quote(name);
    let list = vec![
        "Start-Transcript -Path '".to_owned().concat(quote(log).as_str()).concat("' -Force"),
        "Write-Host (\"PowerShell $($PSVersionTable.PSVersion); git: \" + (Get-Command git -ErrorAction SilentlyContinue).Source)".to_owned(),
        "Wait-Process -Id ".to_owned().concat(to_decimal(tray_pid as u128).as_str()).concat(" -ErrorAction SilentlyContinue"),
        "$updated = $false".to_owned(),
        "for ($attempt = 1; $attempt -le 3 -and -not $updated; $attempt++) { Write-Host \"scoop update '".to_owned()
            .concat(quoted_name.as_str())
            .concat("' (attempt $attempt)\"; scoop update '")
            .concat(quoted_name.as_str())
            .concat("' 2>&1 | Out-Host; if ($LASTEXITCODE -eq 0) { $updated = $true } else { Start-Sleep -Seconds 5 } }"),
        "Write-Host \"updated: $updated\"".to_owned(),
        "$env:".to_owned().concat(RELAUNCH_ENV).concat(" = '1'"),
        "Start-Process -FilePath '".to_owned().concat(quote(exe).as_str())
            .concat("' -WorkingDirectory '")
            .concat(quote(dir).as_str())
            .concat("'"),
        "Stop-Transcript".to_owned(),
    ];
    assert(texts(list@) =~= statements(name@, exe@, dir@, tray_pid as nat, log@));
    separate(&list, SEPARATOR)
}

} // verus!
