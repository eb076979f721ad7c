//! How many single quotes the update program holds.
use crate::script::{
    mark_relaunch, name_tools, program, relaunch, separated, start_transcript, statements,
    try_update, wait_for_tray, RELAUNCH_ENV, SEPARATOR,
};
use crate::text::{decimal, occurrences, occurrences_add, occurrences_of_absent, quoted};
use vstd::prelude::*;

verus! {

/// How often `x` occurs in the texts of `list`.
pub open spec fn occurrences_in_all(list: Seq<Seq<char>>, x: char) -> nat
    decreases list.len(),
{
    if list.len() == 0 {
        0
    } else {
        occurrences_in_all(list.drop_last(), x) + occurrences(list.last(), x)
    }
}

/// A separator without `x` adds none.
proof fn occurrences_separated(list: Seq<Seq<char>>, separator: Seq<char>, x: char)
    requires
        occurrences(separator, x) == 0,
    ensures
        occurrences(separated(list, separator), x) == occurrences_in_all(list, x),
    decreases list.len(),
{
    if list.len() == 1 {
        assert(occurrences_in_all(list.drop_last(), x) == 0);
    } else if list.len() > 1 {
        let head = separated(list.drop_last(), separator);
        occurrences_separated(list.drop_last(), separator, x);
        occurrences_add(head + separator, list.last(), x);
        occurrences_add(head, separator, x);
    }
}

/// Quoting doubles the quotes and nothing else.
proof fn quotes_of_quoted(text: Seq<char>)
    ensures
        occurrences(quoted(text), '\'') == 2 * occurrences(text, '\''),
    decreases text.len(),
{
    if text.len() > 0 {
        quotes_of_quoted(text.drop_last());
        let head = quoted(text.drop_last());
        if text.last() == '\'' {
            assert(head.push('\'').push('\'').drop_last() =~= head.push('\''));
            assert(head.push('\'').drop_last() =~= head);
            assert(occurrences(head.push('\''), '\'') == occurrences(head, '\'') + 1);
        } else {
            assert(head.push(text.last()).drop_last() =~= head);
        }
    }
}

/// A text with a quote at `at` and nowhere else holds one quote.
proof fn one_quote(s: Seq<char>, at: int)
    requires
        0 <= at < s.len(),
        s[at] == '\'',
        forall|i: int| 0 <= i < s.len() && i != at ==> s[i] != '\'',
    ensures
        occurrences(s, '\'') == 1,
{
    occurrences_of_absent(s.take(at), '\'');
    occurrences_of_absent(s.skip(at + 1), '\'');
    assert(s.take(at).push('\'').drop_last() =~= s.take(at));
    occurrences_add(s.take(at).push('\''), s.skip(at + 1), '\'');
    assert(s =~= s.take(at).push('\'') + s.skip(at + 1));
}

/// A text with quotes at `first` and `second` and nowhere else holds two.
proof fn two_quotes(s: Seq<char>, first: int, second: int)
    requires
        0 <= first < second < s.len(),
        s[first] == '\'',
        s[second] == '\'',
        forall|i: int| 0 <= i < s.len() && i != first && i != second ==> s[i] != '\'',
    ensures
        occurrences(s, '\'') == 2,
{
    one_quote(s.take(second), first);
    one_quote(s.skip(second), 0);
    occurrences_add(s.take(second), s.skip(second), '\'');
    assert(s =~= s.take(second) + s.skip(second));
}

/// The update program holds twelve single quotes of its own and two for each
/// quote in a text that is put into it, each time it is.
pub proof fn quotes_of_program(
    name: Seq<char>,
    exe: Seq<char>,
    dir: Seq<char>,
    tray_pid: nat,
    log: Seq<char>,
)
    ensures
        occurrences(program(name, exe, dir, tray_pid, log), '\'') == 12 + 2 * occurrences(
            log,
            '\'',
        ) + 4 * occurrences(name, '\'') + 2 * occurrences(exe, '\'') + 2 * occurrences(dir, '\''),
{
    let q = '\'';
    let list = statements(name, exe, dir, tray_pid, log);
    assert(occurrences(SEPARATOR@, q) == 0) by {
        reveal_strlit("; ");
        occurrences_of_absent(SEPARATOR@, q);
    }
    occurrences_separated(list, SEPARATOR@, q);
    quotes_of_transcript(log);
    quotes_of_update(name);
    quotes_of_relaunch(exe, dir);
    quotes_of_fixed(tray_pid);
    reveal_with_fuel(occurrences_in_all, 10);
    assert(list.drop_last().drop_last().drop_last().drop_last().drop_last().drop_last().drop_last().drop_last().drop_last().len()
        == 0);
}

/// Starting the transcript takes two quotes and the file's, doubled.
proof fn quotes_of_transcript(log: Seq<char>)
    ensures
        occurrences(start_transcript(log), '\'') == 2 + 2 * occurrences(log, '\''),
{
    let before = "Start-Transcript -Path '"@;
    let after = "' -Force"@;
    reveal_strlit("Start-Transcript -Path '");
    reveal_strlit("' -Force");
    one_quote(before, before.len() - 1);
    one_quote(after, 0);
    quotes_of_quoted(log);
    occurrences_add(before + quoted(log), after, '\'');
    occurrences_add(before, quoted(log), '\'');
}

/// Trying the update takes four quotes and the app's, doubled twice.
proof fn quotes_of_update(name: Seq<char>)
    ensures
        occurrences(try_update(name), '\'') == 4 + 4 * occurrences(name, '\''),
{
    let before = "for ($attempt = 1; $attempt -le 3 -and -not $updated; $attempt++) { Write-Host \"scoop update '"@;
    let middle = "' (attempt $attempt)\"; scoop update '"@;
    let after = "' 2>&1 | Out-Host; if ($LASTEXITCODE -eq 0) { $updated = $true } else { Start-Sleep -Seconds 5 } }"@;
    reveal_strlit("for ($attempt = 1; $attempt -le 3 -and -not $updated; $attempt++) { Write-Host \"scoop update '");
    reveal_strlit("' (attempt $attempt)\"; scoop update '");
    reveal_strlit("' 2>&1 | Out-Host; if ($LASTEXITCODE -eq 0) { $updated = $true } else { Start-Sleep -Seconds 5 } }");
    one_quote(before, before.len() - 1);
    two_quotes(middle, 0, middle.len() - 1);
    one_quote(after, 0);
    quotes_of_quoted(name);
    let name_once = before + quoted(name);
    occurrences_add(before, quoted(name), '\'');
    occurrences_add(name_once, middle, '\'');
    occurrences_add(name_once + middle, quoted(name), '\'');
    occurrences_add(name_once + middle + quoted(name), after, '\'');
}

/// The relaunch takes four quotes and those of both paths, doubled.
proof fn quotes_of_relaunch(exe: Seq<char>, dir: Seq<char>)
    ensures
        occurrences(relaunch(exe, dir), '\'') == 4 + 2 * occurrences(exe, '\'') + 2 * occurrences(
            dir,
            '\'',
        ),
{
    let before = "Start-Process -FilePath '"@;
    let middle = "' -WorkingDirectory '"@;
    let after = "'"@;
    reveal_strlit("Start-Process -FilePath '");
    reveal_strlit("' -WorkingDirectory '");
    reveal_strlit("'");
    one_quote(before, before.len() - 1);
    two_quotes(middle, 0, middle.len() - 1);
    one_quote(after, 0);
    quotes_of_quoted(exe);
    quotes_of_quoted(dir);
    occurrences_add(before, quoted(exe), '\'');
    occurrences_add(before + quoted(exe), middle, '\'');
    occurrences_add(before + quoted(exe) + middle, quoted(dir), '\'');
    occurrences_add(before + quoted(exe) + middle + quoted(dir), after, '\'');
}

/// The statements that no text is put into hold two quotes between them,
/// round the relaunch marker's value.
proof fn quotes_of_fixed(tray_pid: nat)
    ensures
        occurrences(name_tools(), '\'') == 0,
        occurrences(wait_for_tray(tray_pid), '\'') == 0,
        occurrences("$updated = $false"@, '\'') == 0,
        occurrences("Write-Host \"updated: $updated\""@, '\'') == 0,
        occurrences(mark_relaunch(), '\'') == 2,
        occurrences("Stop-Transcript"@, '\'') == 0,
{
    let q = '\'';
    reveal_strlit("Write-Host (\"PowerShell $($PSVersionTable.PSVersion); git: \" + (Get-Command git -ErrorAction SilentlyContinue).Source)");
    occurrences_of_absent(name_tools(), q);
    reveal_strlit("$updated = $false");
    occurrences_of_absent("$updated = $false"@, q);
    reveal_strlit("Write-Host \"updated: $updated\"");
    occurrences_of_absent("Write-Host \"updated: $updated\""@, q);
    reveal_strlit("Stop-Transcript");
    occurrences_of_absent("Stop-Transcript"@, q);
    assert(occurrences(wait_for_tray(tray_pid), q) == 0) by {
        reveal_strlit("Wait-Process -Id ");
        reveal_strlit(" -ErrorAction SilentlyContinue");
        occurrences_of_absent("Wait-Process -Id "@, q);
        occurrences_of_absent(" -ErrorAction SilentlyContinue"@, q);
        no_quote_in_decimal(tray_pid);
        occurrences_add("Wait-Process -Id "@, decimal(tray_pid), q);
        occurrences_add(
            "Wait-Process -Id "@ + decimal(tray_pid),
            " -ErrorAction SilentlyContinue"@,
            q,
        );
    }
    assert(occurrences(mark_relaunch(), q) == 2) by {
        reveal_strlit("$env:");
        reveal_strlit("AIUB_TRAY_RELAUNCH");
        reveal_strlit(" = '1'");
        occurrences_of_absent("$env:"@, q);
        occurrences_of_absent(RELAUNCH_ENV@, q);
        two_quotes(" = '1'"@, 3, 5);
        occurrences_add("$env:"@, RELAUNCH_ENV@, q);
        occurrences_add("$env:"@ + RELAUNCH_ENV@, " = '1'"@, q);
    }
}

/// A number in decimal holds no quote.
proof fn no_quote_in_decimal(n: nat)
    ensures
        occurrences(decimal(n), '\'') == 0,
    decreases n,
{
    if n < 10 {
        occurrences_of_absent(decimal(n), '\'');
    } else {
        no_quote_in_decimal(n / 10);
        assert(decimal(n).drop_last() =~= decimal(n / 10));
    }
}

} // verus!
