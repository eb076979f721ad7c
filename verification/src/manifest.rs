//! What the tray accepts from `install.json` and from a bucket's manifest.
use crate::json::{read_string_field, string_field};
use crate::text::{ascii_digit, characters, has_prefix, opt_text, trim, trimmed};
use vstd::prelude::*;
use vstd::utf8::encode_utf8;

verus! {

/// The longest bucket name that is accepted.
pub const MAX_NAME_LEN: usize = 100;

/// The longest homepage that is accepted, in bytes.
pub const MAX_HOMEPAGE_LEN: usize = 400;

/// Where an accepted homepage starts.
pub const GITHUB: &'static str = "https://github.com/";

/// A character that a plain name may hold.
pub open spec fn plain_char(c: char) -> bool {
    ||| 'a' <= c <= 'z'
    ||| 'A' <= c <= 'Z'
    ||| '0' <= c <= '9'
    ||| c == '-'
    ||| c == '_'
    ||| c == '.'
}

/// A name that is one plain path component.
pub open spec fn plain_name(name: Seq<char>) -> bool {
    &&& 0 < name.len() <= MAX_NAME_LEN
    &&& name != seq!['.']
    &&& name != seq!['.', '.']
    &&& forall|i: int| 0 <= i < name.len() ==> plain_char(#[trigger] name[i])
}

/// A non-empty run of decimal digits.
pub open spec fn digits(s: Seq<char>) -> bool {
    &&& s.len() > 0
    &&& forall|i: int| 0 <= i < s.len() ==> ascii_digit(#[trigger] s[i])
}

/// Three runs of digits with a dot between each two.
pub open spec fn dotted(major: Seq<char>, minor: Seq<char>, patch: Seq<char>) -> Seq<char> {
    major + seq!['.'] + minor + seq!['.'] + patch
}

/// A version of the form `X.Y.Z`, each of them a number.
pub open spec fn strict_version(s: Seq<char>) -> bool {
    exists|major: Seq<char>, minor: Seq<char>, patch: Seq<char>|
        #![trigger dotted(major, minor, patch)]
        digits(major) && digits(minor) && digits(patch) && s == dotted(major, minor, patch)
}

/// A GitHub page of bounded length.
pub open spec fn github_page(s: Seq<char>) -> bool {
    GITHUB@.is_prefix_of(s) && encode_utf8(s).len() <= MAX_HOMEPAGE_LEN
}

/// The bucket that a field names, if any.
pub open spec fn accepted_bucket(field: Seq<char>) -> Option<Seq<char>> {
    if plain_name(trimmed(field)) {
        Some(trimmed(field))
    } else {
        None
    }
}

/// The version that a field gives, if any.
pub open spec fn accepted_version(field: Seq<char>) -> Option<Seq<char>> {
    if strict_version(trimmed(field)) {
        Some(trimmed(field))
    } else {
        None
    }
}

/// The homepage that a field gives, if any.
pub open spec fn accepted_homepage(field: Seq<char>) -> Option<Seq<char>> {
    if github_page(trimmed(field)) {
        Some(trimmed(field))
    } else {
        None
    }
}

/// The bucket that the text of `install.json` names.
pub open spec fn install_bucket(text: Seq<char>) -> Option<Seq<char>> {
    match string_field(text, "bucket"@) {
        Some(field) => accepted_bucket(field),
        None => None,
    }
}

/// The version that the text of a manifest gives.
pub open spec fn manifest_version(text: Seq<char>) -> Option<Seq<char>> {
    match string_field(text, "version"@) {
        Some(field) => accepted_version(field),
        None => None,
    }
}

/// The homepage that the text of a manifest gives.
pub open spec fn manifest_homepage(text: Seq<char>) -> Option<Seq<char>> {
    match string_field(text, "homepage"@) {
        Some(field) => accepted_homepage(field),
        None => None,
    }
}

/// Whether a plain name may hold `c`.
fn is_plain_char(c: char) -> (r: bool)
    ensures
        r == plain_char(c),
{
    ('a' <= c && c <= 'z') || ('A' <= c && c <= 'Z') || ('0' <= c && c <= '9') || c == '-' || c
        == '_' || c == '.'
}

/// A bucket or app name is joined onto a path, so it must be one plain
/// component.
pub fn is_plain_name(name: &str) -> (r: bool)
    ensures
        r == plain_name(name@),
{
    let chars = characters(name);
    if chars.len() == 0 || chars.len() > MAX_NAME_LEN {
        return false;
    }
    let dots_only = chars[0] == '.' && (chars.len() == 1 || (chars.len() == 2 && chars[1] == '.'));
    if dots_only {
        assert(name@ =~= seq!['.'] || name@ =~= seq!['.', '.']);
        return false;
    }
    let mut i: usize = 0;
    while i < chars.len()
        invariant
            i <= chars@.len(),
            chars@ == name@,
            forall|k: int| 0 <= k < i ==> plain_char(#[trigger] chars@[k]),
        decreases chars@.len() - i,
    {
        if !is_plain_char(chars[i]) {
            return false;
        }
        i += 1;
    }
    true
}

/// The end of the run of digits that starts at `from`.
fn digits_end(chars: &Vec<char>, from: usize) -> (end: usize)
    requires
        from <= chars@.len(),
    ensures
        from <= end <= chars@.len(),
        forall|k: int| from <= k < end ==> ascii_digit(#[trigger] chars@[k]),
        end < chars@.len() ==> !ascii_digit(chars@[end as int]),
{
    let mut end: usize = from;
    while end < chars.len() && '0' <= chars[end] && chars[end] <= '9'
        invariant
            from <= end <= chars@.len(),
            forall|k: int| from <= k < end ==> ascii_digit(#[trigger] chars@[k]),
        decreases chars@.len() - end,
    {
        end += 1;
    }
    end
}

/// Whether `version` is a strict `X.Y.Z`.
pub fn is_strict_version(version: &str) -> (r: bool)
    ensures
        r == strict_version(version@),
{
    let chars = characters(version);
    let ghost s = version@;
    let first = digits_end(&chars, 0);
    if first == 0 || first == chars.len() || chars[first] != '.' {
        assert forall|a: Seq<char>, b: Seq<char>, c: Seq<char>|
            #![trigger dotted(a, b, c)]
            digits(a) && digits(b) && digits(c) implies s != dotted(a, b, c) by {
            if s == dotted(a, b, c) {
                run_ends_at_dot(s, 0, a, b + seq!['.'] + c, first as int);
            }
        }
        return false;
    }
    let second = digits_end(&chars, first + 1);
    if second == first + 1 || second == chars.len() || chars[second] != '.' {
        assert forall|a: Seq<char>, b: Seq<char>, c: Seq<char>|
            #![trigger dotted(a, b, c)]
            digits(a) && digits(b) && digits(c) implies s != dotted(a, b, c) by {
            if s == dotted(a, b, c) {
                run_ends_at_dot(s, 0, a, b + seq!['.'] + c, first as int);
                run_ends_at_dot(s, first + 1, b, c, second as int);
            }
        }
        return false;
    }
    let third = digits_end(&chars, second + 1);
    if third == second + 1 || third != chars.len() {
        assert forall|a: Seq<char>, b: Seq<char>, c: Seq<char>|
            #![trigger dotted(a, b, c)]
            digits(a) && digits(b) && digits(c) implies s != dotted(a, b, c) by {
            if s == dotted(a, b, c) {
                run_ends_at_dot(s, 0, a, b + seq!['.'] + c, first as int);
                run_ends_at_dot(s, first + 1, b, c, second as int);
                assert(s.skip(second + 1) =~= c);
                if third < s.len() {
                    assert(c[third - second - 1] == s[third as int]);
                }
            }
        }
        return false;
    }
    proof {
        let a = s.take(first as int);
        let b = s.subrange(first + 1, second as int);
        let c = s.skip(second + 1);
        assert(s =~= dotted(a, b, c));
    }
    true
}

/// In a text that holds the digits `run`, a dot and `rest` from `from` on,
/// the digits end where `run` does.
proof fn run_ends_at_dot(s: Seq<char>, from: int, run: Seq<char>, rest: Seq<char>, end: int)
    requires
        0 <= from <= end <= s.len(),
        s.skip(from) =~= run + seq!['.'] + rest,
        digits(run),
        forall|k: int| from <= k < end ==> ascii_digit(#[trigger] s[k]),
        end < s.len() ==> !ascii_digit(s[end]),
    ensures
        end == from + run.len(),
        end < s.len(),
        s[end] == '.',
        s.skip(end + 1) =~= rest,
{
    let tail = run + seq!['.'] + rest;
    assert(s.skip(from)[run.len() as int] == tail[run.len() as int]);
    assert(tail[run.len() as int] == '.');
    if end < from + run.len() {
        assert(s.skip(from)[end - from] == tail[end - from]);
        assert(tail[end - from] == run[end - from]);
    }
    assert(s.skip(from).len() == tail.len());
    assert(end == from + run.len());
    assert forall|k: int| 0 <= k < rest.len() implies s.skip(end + 1)[k] == rest[k] by {
        assert(s.skip(from)[run.len() + 1 + k] == tail[run.len() + 1 + k]);
    }
}

/// Keeps the bucket that a field names when it is plain.
pub fn bucket_in_field(field: &str) -> (r: Option<String>)
    ensures
        opt_text(r) == accepted_bucket(field@),
{
    let bucket = trim(field);
    if is_plain_name(bucket) {
        Some(bucket.to_owned())
    } else {
        None
    }
}

/// Keeps the version that a field gives when it is strict.
pub fn version_in_field(field: &str) -> (r: Option<String>)
    ensures
        opt_text(r) == accepted_version(field@),
{
    let version = trim(field);
    if is_strict_version(version) {
        Some(version.to_owned())
    } else {
        None
    }
}

/// Keeps the homepage that a field gives when it is a GitHub page.
pub fn homepage_in_field(field: &str) -> (r: Option<String>)
    ensures
        opt_text(r) == accepted_homepage(field@),
{
    let homepage = trim(field);
    if has_prefix(homepage, GITHUB) && homepage.as_bytes().len() <= MAX_HOMEPAGE_LEN {
        Some(homepage.to_owned())
    } else {
        None
    }
}

/// `"bucket"` of `install.json`, the file Scoop writes next to the app.
pub fn bucket_from_install_json(text: &str) -> (r: Option<String>)
    ensures
        opt_text(r) == install_bucket(text@),
{
    match read_string_field(text, "bucket") {
        Some(field) => bucket_in_field(field.as_str()),
        None => None,
    }
}

/// `"version"` of a bucket manifest. Anything but a strict `X.Y.Z` is not
/// ours, so a missing version and an odd one both yield `None`.
pub fn version_from_manifest(text: &str) -> (r: Option<String>)
    ensures
        opt_text(r) == manifest_version(text@),
{
    match read_string_field(text, "version") {
        Some(field) => version_in_field(field.as_str()),
        None => None,
    }
}

/// `"homepage"` of a bucket manifest when it is a GitHub page; the popover
/// keeps only those, so anything else yields `None` and the caller falls
/// back to the releases page.
pub fn homepage_from_manifest(text: &str) -> (r: Option<String>)
    ensures
        opt_text(r) == manifest_homepage(text@),
{
    match read_string_field(text, "homepage") {
        Some(field) => homepage_in_field(field.as_str()),
        None => None,
    }
}

} // verus!
