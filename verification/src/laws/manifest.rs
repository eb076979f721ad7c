//! What is accepted from `install.json` and from a manifest: exactly which
//! texts, by their characters, and from which member.
use crate::json::{json_chars, json_members, json_value, read_string_field};
use crate::manifest::{
    bucket_from_install_json, bucket_in_field, digits, dotted, homepage_from_manifest,
    homepage_in_field, is_plain_name, is_strict_version, plain_char, plain_name, strict_version,
    version_from_manifest, version_in_field,
};
use crate::text::{ascii_digit, trimmed, white_space};
use vstd::prelude::*;
use vstd::utf8::encode_utf8;

verus! {

/// A string is read from a member exactly when the text is JSON, an object,
/// has the member, and the member is a string; it is that string.
pub proof fn strings_are_read_from_their_member(text: &str, key: &str, r: Option<String>)
    requires
        call_ensures(read_string_field, (text, key), r),
    ensures
        json_value(text@) matches Some(value) ==> (json_members(value) matches Some(members) ==> (
        members.contains_key(key@) ==> (json_chars(members[key@]) matches Some(chars) ==> (
        r matches Some(found) && found@ == chars)))),
        r is Some ==> (json_value(text@) matches Some(value) && json_members(value) matches Some(
            members,
        ) && members.contains_key(key@) && json_chars(members[key@]) is Some),
{
}

/// A name is plain exactly when it has 1 to 100 characters, is neither `.`
/// nor `..`, and every character is an ASCII letter, an ASCII digit, `-`,
/// `_` or `.`.
pub proof fn plain_names_by_code_point(name: &str, r: bool)
    requires
        call_ensures(is_plain_name, (name,), r),
    ensures
        r <==> {
            &&& 1 <= name@.len() <= 100
            &&& name@ != seq!['.']
            &&& name@ != seq!['.', '.']
            &&& forall|i: int|
                0 <= i < name@.len() ==> {
                    let code = (#[trigger] name@[i]) as int;
                    ||| 0x61 <= code <= 0x7a
                    ||| 0x41 <= code <= 0x5a
                    ||| 0x30 <= code <= 0x39
                    ||| code == 0x2d
                    ||| code == 0x5f
                    ||| code == 0x2e
                }
        },
{
    plain_by_code_point(name@);
}

/// Plain characters by their code points.
proof fn plain_by_code_point(name: Seq<char>)
    ensures
        plain_name(name) <==> {
            &&& 1 <= name.len() <= 100
            &&& name != seq!['.']
            &&& name != seq!['.', '.']
            &&& forall|i: int|
                0 <= i < name.len() ==> {
                    let code = (#[trigger] name[i]) as int;
                    ||| 0x61 <= code <= 0x7a
                    ||| 0x41 <= code <= 0x5a
                    ||| 0x30 <= code <= 0x39
                    ||| code == 0x2d
                    ||| code == 0x5f
                    ||| code == 0x2e
                }
        },
{
    assert forall|c: char| #[trigger] plain_char(c) <==> {
        let code = c as int;
        ||| 0x61 <= code <= 0x7a
        ||| 0x41 <= code <= 0x5a
        ||| 0x30 <= code <= 0x39
        ||| code == 0x2d
        ||| code == 0x5f
        ||| code == 0x2e
    } by {}
    if plain_name(name) {
        assert forall|i: int| 0 <= i < name.len() implies {
            let code = (#[trigger] name[i]) as int;
            ||| 0x61 <= code <= 0x7a
            ||| 0x41 <= code <= 0x5a
            ||| 0x30 <= code <= 0x39
            ||| code == 0x2d
            ||| code == 0x5f
            ||| code == 0x2e
        } by {
            assert(plain_char(name[i]));
        }
    }
}

/// Every text of 1 to 100 ASCII letters, digits, `-`, `_` and `.`, other
/// than `.` and `..`, is accepted as a bucket, unchanged, also with white
/// space round it.
pub proof fn plain_buckets_are_accepted(field: &str, name: Seq<char>, r: Option<String>)
    requires
        call_ensures(bucket_in_field, (field,), r),
        trimmed(field@) == name || field@ == name,
        1 <= name.len() <= 100,
        name != seq!['.'],
        name != seq!['.', '.'],
        forall|i: int|
            0 <= i < name.len() ==> {
                let code = (#[trigger] name[i]) as int;
                ||| 0x61 <= code <= 0x7a
                ||| 0x41 <= code <= 0x5a
                ||| 0x30 <= code <= 0x39
                ||| code == 0x2d
                ||| code == 0x5f
                ||| code == 0x2e
            },
    ensures
        r matches Some(bucket) && bucket@ == name,
{
    plain_by_code_point(name);
    plain_names_have_no_blanks(name);
}

/// Trimming takes nothing off a plain name.
proof fn plain_names_have_no_blanks(name: Seq<char>)
    requires
        plain_name(name),
    ensures
        trimmed(name) == name,
{
    assert(plain_char(name[0]) && plain_char(name[name.len() - 1]));
    assert(!white_space(name[0]) && !white_space(name.last()));
}

/// A field is a bucket exactly when it is a plain name without the white
/// space round it, and the bucket is that name.
pub proof fn buckets_by_code_point(field: &str, r: Option<String>)
    requires
        call_ensures(bucket_in_field, (field,), r),
    ensures
        r matches Some(bucket) ==> bucket@ == trimmed(field@),
        r is Some <==> {
            let name = trimmed(field@);
            &&& 1 <= name.len() <= 100
            &&& name != seq!['.']
            &&& name != seq!['.', '.']
            &&& forall|i: int|
                0 <= i < name.len() ==> {
                    let code = (#[trigger] name[i]) as int;
                    ||| 0x61 <= code <= 0x7a
                    ||| 0x41 <= code <= 0x5a
                    ||| 0x30 <= code <= 0x39
                    ||| code == 0x2d
                    ||| code == 0x5f
                    ||| code == 0x2e
                }
        },
{
    plain_by_code_point(trimmed(field@));
}

/// The bucket depends on the `bucket` member of `install.json` alone: where
/// that is a string, it is the string without white space round it if that
/// is a plain name, and otherwise there is none.
pub proof fn buckets_come_from_the_bucket_member(text: &str, r: Option<String>)
    requires
        call_ensures(bucket_from_install_json, (text,), r),
    ensures
        r is Some ==> (json_value(text@) matches Some(value) && json_members(value) matches Some(
            members,
        ) && members.contains_key("bucket"@) && json_chars(members["bucket"@]) is Some),
        json_value(text@) matches Some(value) ==> (json_members(value) matches Some(members) ==> (
        members.contains_key("bucket"@) ==> (json_chars(members["bucket"@]) matches Some(field) ==> {
            let name = trimmed(field);
            &&& r matches Some(bucket) ==> bucket@ == name
            &&& r is Some <==> {
                &&& 1 <= name.len() <= 100
                &&& name != seq!['.']
                &&& name != seq!['.', '.']
                &&& forall|i: int|
                    0 <= i < name.len() ==> {
                        let code = (#[trigger] name[i]) as int;
                        ||| 0x61 <= code <= 0x7a
                        ||| 0x41 <= code <= 0x5a
                        ||| 0x30 <= code <= 0x39
                        ||| code == 0x2d
                        ||| code == 0x5f
                        ||| code == 0x2e
                    }
            }
        }))),
{
    if let Some(value) = json_value(text@) {
        if let Some(members) = json_members(value) {
            if let Some(field) = json_chars(members["bucket"@]) {
                plain_by_code_point(trimmed(field));
            }
        }
    }
}

/// A version is strict exactly when all of it is decimal digits but for two
/// dots, and there are digits before, between and after them.
pub proof fn strict_versions_by_position(version: &str, r: bool)
    requires
        call_ensures(is_strict_version, (version,), r),
    ensures
        r <==> exists|i: int, j: int|
            {
                &&& 0 < i && i + 1 < j && j + 1 < version@.len()
                &&& #[trigger] version@[i] == '.' && #[trigger] version@[j] == '.'
                &&& forall|k: int|
                    0 <= k < version@.len() && k != i && k != j ==> 0x30 <= (
                    #[trigger] version@[k]) as int <= 0x39
            },
{
    strict_by_position(version@);
}

/// Strict versions by where their dots stand.
proof fn strict_by_position(s: Seq<char>)
    ensures
        strict_version(s) <==> exists|i: int, j: int|
            {
                &&& 0 < i && i + 1 < j && j + 1 < s.len()
                &&& #[trigger] s[i] == '.' && #[trigger] s[j] == '.'
                &&& forall|k: int|
                    0 <= k < s.len() && k != i && k != j ==> 0x30 <= (#[trigger] s[k]) as int
                        <= 0x39
            },
{
    if strict_version(s) {
        let (a, b, c) = choose|a: Seq<char>, b: Seq<char>, c: Seq<char>|
            #![trigger dotted(a, b, c)]
            digits(a) && digits(b) && digits(c) && s == dotted(a, b, c);
        let i = a.len() as int;
        let j = i + 1 + b.len();
        assert(s[i] == '.' && s[j] == '.');
        assert forall|k: int| 0 <= k < s.len() && k != i && k != j implies 0x30 <= (
        #[trigger] s[k]) as int <= 0x39 by {
            if k < i {
                assert(s[k] == a[k]);
                assert(ascii_digit(a[k]));
            } else if k < j {
                assert(s[k] == b[k - i - 1]);
                assert(ascii_digit(b[k - i - 1]));
            } else {
                assert(s[k] == c[k - j - 1]);
                assert(ascii_digit(c[k - j - 1]));
            }
        }
    }
    if exists|i: int, j: int|
        {
            &&& 0 < i && i + 1 < j && j + 1 < s.len()
            &&& #[trigger] s[i] == '.' && #[trigger] s[j] == '.'
            &&& forall|k: int|
                0 <= k < s.len() && k != i && k != j ==> 0x30 <= (#[trigger] s[k]) as int <= 0x39
        } {
        let (i, j) = choose|i: int, j: int|
            {
                &&& 0 < i && i + 1 < j && j + 1 < s.len()
                &&& #[trigger] s[i] == '.' && #[trigger] s[j] == '.'
                &&& forall|k: int|
                    0 <= k < s.len() && k != i && k != j ==> 0x30 <= (#[trigger] s[k]) as int
                        <= 0x39
            };
        let a = s.take(i);
        let b = s.subrange(i + 1, j);
        let c = s.skip(j + 1);
        assert(s =~= dotted(a, b, c));
        assert(digits(a) && digits(b) && digits(c));
    }
}

/// A field is a version exactly when it is strict without the white space
/// round it, and the version is that.
pub proof fn versions_by_position(field: &str, r: Option<String>)
    requires
        call_ensures(version_in_field, (field,), r),
    ensures
        r matches Some(version) ==> version@ == trimmed(field@),
        r is Some <==> {
            let s = trimmed(field@);
            exists|i: int, j: int|
                {
                    &&& 0 < i && i + 1 < j && j + 1 < s.len()
                    &&& #[trigger] s[i] == '.' && #[trigger] s[j] == '.'
                    &&& forall|k: int|
                        0 <= k < s.len() && k != i && k != j ==> 0x30 <= (#[trigger] s[k]) as int
                            <= 0x39
                }
        },
{
    strict_by_position(trimmed(field@));
}

/// The version depends on the `version` member of a manifest alone: where
/// that is a string, it is the string without white space round it if that
/// is strict, and otherwise there is none.
pub proof fn versions_come_from_the_version_member(text: &str, r: Option<String>)
    requires
        call_ensures(version_from_manifest, (text,), r),
    ensures
        r is Some ==> (json_value(text@) matches Some(value) && json_members(value) matches Some(
            members,
        ) && members.contains_key("version"@) && json_chars(members["version"@]) is Some),
        json_value(text@) matches Some(value) ==> (json_members(value) matches Some(members) ==> (
        members.contains_key("version"@) ==> (json_chars(members["version"@]) matches Some(field) ==> {
            let s = trimmed(field);
            &&& r matches Some(version) ==> version@ == s
            &&& r is Some <==> exists|i: int, j: int|
                {
                    &&& 0 < i && i + 1 < j && j + 1 < s.len()
                    &&& #[trigger] s[i] == '.' && #[trigger] s[j] == '.'
                    &&& forall|k: int|
                        0 <= k < s.len() && k != i && k != j ==> 0x30 <= (#[trigger] s[k]) as int
                            <= 0x39
                }
        }))),
{
    if let Some(value) = json_value(text@) {
        if let Some(members) = json_members(value) {
            if let Some(field) = json_chars(members["version"@]) {
                strict_by_position(trimmed(field));
            }
        }
    }
}

/// A field is a homepage exactly when, without the white space round it, it
/// starts with `https://github.com/` and takes at most 400 bytes; the
/// homepage is that.
pub proof fn homepages_are_short_github_pages(field: &str, r: Option<String>)
    requires
        call_ensures(homepage_in_field, (field,), r),
    ensures
        r matches Some(homepage) ==> homepage@ == trimmed(field@),
        r is Some <==> "https://github.com/"@.is_prefix_of(trimmed(field@)) && encode_utf8(
            trimmed(field@),
        ).len() <= 400,
{
}

/// The homepage depends on the `homepage` member of a manifest alone: where
/// that is a string, it is the string without white space round it if that
/// starts with `https://github.com/` and takes at most 400 bytes, and
/// otherwise there is none.
pub proof fn homepages_come_from_the_homepage_member(text: &str, r: Option<String>)
    requires
        call_ensures(homepage_from_manifest, (text,), r),
    ensures
        r is Some ==> (json_value(text@) matches Some(value) && json_members(value) matches Some(
            members,
        ) && members.contains_key("homepage"@) && json_chars(members["homepage"@]) is Some),
        json_value(text@) matches Some(value) ==> (json_members(value) matches Some(members) ==> (
        members.contains_key("homepage"@) ==> (json_chars(members["homepage"@]) matches Some(field) ==> {
            &&& r matches Some(homepage) ==> homepage@ == trimmed(field)
            &&& r is Some <==> "https://github.com/"@.is_prefix_of(trimmed(field)) && encode_utf8(
                trimmed(field),
            ).len() <= 400
        }))),
{
}

} // verus!
