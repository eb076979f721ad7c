//! Which exes are Scoop's, where an app's files lie, and what is read from
//! them.
use crate::json::{json_chars, json_members, json_value};
use crate::manifest::{
    bucket_from_install_json, homepage_from_manifest, install_bucket, manifest_homepage,
    manifest_version, version_from_manifest,
};
use crate::paths::{buf_bytes, joined, joined_all, parent_bytes, path_bytes, path_parts, PathPart};
use crate::profile::{popover_data_dir, popover_pieces};
use crate::scoop::{
    ancestor, answers, app_name, apps_dir, ascii_lower, detect_with, detected, gives, is_apps_dir,
    locate, may_probe, scoop_layout, shims_of, sits_in, ScoopApp,
};
use crate::text::{opt_text, trimmed};
use std::path::{Path, PathBuf};
use vstd::prelude::*;
use vstd::utf8::{
    decode_utf8, encode_utf8, is_ascii_chars, is_ascii_chars_encode_utf8, valid_utf8,
};

verus! {

/// Scoop's `apps` is spelled with these four letters, each in either case.
pub proof fn apps_is_spelled_in_any_case(name: &[u8], r: bool)
    requires
        call_ensures(is_apps_dir, (name,), r),
    ensures
        r <==> {
            &&& name@.len() == 4
            &&& name@[0] == 0x61 || name@[0] == 0x41
            &&& name@[1] == 0x70 || name@[1] == 0x50
            &&& name@[2] == 0x70 || name@[2] == 0x50
            &&& name@[3] == 0x73 || name@[3] == 0x53
        },
{
    apps_by_letter(name@);
}

/// The spelling of `apps`, letter by letter.
proof fn apps_by_letter(name: Seq<u8>)
    ensures
        apps_dir(name) <==> {
            &&& name.len() == 4
            &&& name[0] == 0x61 || name[0] == 0x41
            &&& name[1] == 0x70 || name[1] == 0x50
            &&& name[2] == 0x70 || name[2] == 0x50
            &&& name[3] == 0x73 || name[3] == 0x53
        },
{
    let apps = encode_utf8("apps"@);
    reveal_strlit("apps");
    assert(is_ascii_chars("apps"@));
    is_ascii_chars_encode_utf8("apps"@);
    assert(apps.len() == 4);
    assert(apps[0] == 0x61 && apps[1] == 0x70 && apps[2] == 0x70 && apps[3] == 0x73);
    if apps_dir(name) {
        assert(ascii_lower(name[0]) == ascii_lower(apps[0]));
        assert(ascii_lower(name[1]) == ascii_lower(apps[1]));
        assert(ascii_lower(name[2]) == ascii_lower(apps[2]));
        assert(ascii_lower(name[3]) == ascii_lower(apps[3]));
    }
}

/// A directory's name is an app's exactly when it is Unicode and not empty,
/// and the app's name is that text.
pub proof fn app_names_are_their_directorys(dir: &[u8], r: Option<String>)
    requires
        call_ensures(app_name, (dir,), r),
    ensures
        r is Some <==> valid_utf8(dir@) && decode_utf8(dir@).len() > 0,
        r matches Some(name) ==> name@ == decode_utf8(dir@),
{
}

/// An exe is located in an app exactly when it lies two entries below a
/// directory with a Unicode name in a directory `apps`; the app goes by that
/// name, and its root is what lies four levels above the exe.
pub proof fn apps_are_located_by_their_tree(exe: &Path, r: Option<ScoopApp>)
    requires
        call_ensures(locate, (exe,), r),
    ensures
        ({
            let parts = path_parts(path_bytes(exe));
            let n = parts.len() as int;
            &&& r is Some <==> {
                &&& n >= 4
                &&& !(parts[n - 1] is Root) && !(parts[n - 1] is Prefix)
                &&& !(parts[n - 2] is Root) && !(parts[n - 2] is Prefix)
                &&& parts[n - 3] matches PathPart::Named(name)
                &&& valid_utf8(name) && decode_utf8(name).len() > 0
                &&& parts[n - 4] matches PathPart::Named(apps)
                &&& apps.len() == 4
                &&& apps[0] == 0x61 || apps[0] == 0x41
                &&& apps[1] == 0x70 || apps[1] == 0x50
                &&& apps[2] == 0x70 || apps[2] == 0x50
                &&& apps[3] == 0x73 || apps[3] == 0x53
            }
            &&& r matches Some(app) ==> {
                &&& parts[n - 3] matches PathPart::Named(name)
                &&& app.name@ == decode_utf8(name)
                &&& path_parts(buf_bytes(&app.root)) == parts.take(n - 4)
                &&& parent_bytes(path_bytes(exe)) matches Some(version_dir)
                &&& parent_bytes(version_dir) matches Some(app_dir)
                &&& parent_bytes(app_dir) matches Some(apps_dir)
                &&& parent_bytes(apps_dir) == Some(buf_bytes(&app.root))
            }
        }),
{
    layout_by_letter(path_parts(path_bytes(exe)));
    four_levels_up(path_bytes(exe));
}

/// The layout of an app's exe, letter by letter.
proof fn layout_by_letter(parts: Seq<PathPart>)
    ensures
        ({
            let n = parts.len() as int;
            &&& scoop_layout(parts) is Some <==> {
                &&& n >= 4
                &&& !(parts[n - 1] is Root) && !(parts[n - 1] is Prefix)
                &&& !(parts[n - 2] is Root) && !(parts[n - 2] is Prefix)
                &&& parts[n - 3] matches PathPart::Named(name)
                &&& valid_utf8(name) && decode_utf8(name).len() > 0
                &&& parts[n - 4] matches PathPart::Named(apps)
                &&& apps.len() == 4
                &&& apps[0] == 0x61 || apps[0] == 0x41
                &&& apps[1] == 0x70 || apps[1] == 0x50
                &&& apps[2] == 0x70 || apps[2] == 0x50
                &&& apps[3] == 0x73 || apps[3] == 0x53
            }
            &&& scoop_layout(parts) matches Some((name, root)) ==> {
                &&& parts[n - 3] matches PathPart::Named(dir)
                &&& name == decode_utf8(dir)
                &&& root == parts.take(n - 4)
            }
        }),
{
    let n = parts.len() as int;
    if n >= 4 {
        if let PathPart::Named(apps) = parts[n - 4] {
            apps_by_letter(apps);
        }
    }
}

/// Four levels up is the parent's parent's parent's parent.
proof fn four_levels_up(path: Seq<u8>)
    ensures
        ancestor(path, 4) matches Some(root) ==> {
            &&& parent_bytes(path) matches Some(a)
            &&& parent_bytes(a) matches Some(b)
            &&& parent_bytes(b) matches Some(c)
            &&& parent_bytes(c) == Some(root)
        },
{
    reveal_with_fuel(ancestor, 5);
}

/// An exe is Scoop's exactly when it lies in an app's tree and the probe
/// answers that the tree's root has a `shims`: what is detected has the
/// tree's name and root and a `shims` that was found, and where a tree is
/// not detected its `shims` was not.
pub proof fn detection_goes_by_tree_and_shims<F: Fn(&Path) -> bool>(
    exe: &Path,
    is_there: &F,
    r: Option<ScoopApp>,
)
    requires
        call_ensures(detect_with::<F>, (exe, is_there), r),
    ensures
        ({
            let parts = path_parts(path_bytes(exe));
            let n = parts.len() as int;
            let in_tree = {
                &&& n >= 4
                &&& !(parts[n - 1] is Root) && !(parts[n - 1] is Prefix)
                &&& !(parts[n - 2] is Root) && !(parts[n - 2] is Prefix)
                &&& parts[n - 3] matches PathPart::Named(name)
                &&& valid_utf8(name) && decode_utf8(name).len() > 0
                &&& parts[n - 4] matches PathPart::Named(apps)
                &&& apps.len() == 4
                &&& apps[0] == 0x61 || apps[0] == 0x41
                &&& apps[1] == 0x70 || apps[1] == 0x50
                &&& apps[2] == 0x70 || apps[2] == 0x50
                &&& apps[3] == 0x73 || apps[3] == 0x53
            };
            &&& r matches Some(app) ==> {
                &&& in_tree
                &&& parts[n - 3] matches PathPart::Named(name)
                &&& app.name@ == decode_utf8(name)
                &&& path_parts(buf_bytes(&app.root)) == parts.take(n - 4)
                &&& parent_bytes(path_bytes(exe)) matches Some(version_dir)
                &&& parent_bytes(version_dir) matches Some(app_dir)
                &&& parent_bytes(app_dir) matches Some(apps_dir)
                &&& parent_bytes(apps_dir) == Some(buf_bytes(&app.root))
                &&& exists|p: &Path|
                    path_bytes(p) == joined(buf_bytes(&app.root), "shims"@)
                        && #[trigger] call_ensures(*is_there, (p,), true)
            }
            &&& r is None && in_tree ==> {
                &&& parent_bytes(path_bytes(exe)) matches Some(version_dir)
                &&& parent_bytes(version_dir) matches Some(app_dir)
                &&& parent_bytes(app_dir) matches Some(apps_dir)
                &&& parent_bytes(apps_dir) matches Some(root)
                &&& exists|p: &Path|
                    path_bytes(p) == joined(root, "shims"@) && #[trigger] call_ensures(
                        *is_there,
                        (p,),
                        false,
                    )
            }
        }),
{
    layout_by_letter(path_parts(path_bytes(exe)));
    four_levels_up(path_bytes(exe));
    assert(detected(*is_there, path_bytes(exe), r));
    if r is Some {
        let p = choose|p: &Path| #[trigger]
            path_bytes(p) == shims_of(path_bytes(exe)) && call_ensures(*is_there, (p,), true);
        assert(call_ensures(*is_there, (p,), true));
    } else if scoop_layout(path_parts(path_bytes(exe))) is Some {
        let p = choose|p: &Path| #[trigger]
            path_bytes(p) == shims_of(path_bytes(exe)) && call_ensures(*is_there, (p,), false);
        assert(call_ensures(*is_there, (p,), false));
    }
}

/// Where the root four levels above the exe has no `shims`, the exe is not
/// Scoop's, whatever its path.
pub proof fn denied_shims_are_not_scoop<F: Fn(&Path) -> bool>(
    exe: &Path,
    is_there: &F,
    version_dir: Seq<u8>,
    app_dir: Seq<u8>,
    apps_dir: Seq<u8>,
    root: Seq<u8>,
    r: Option<ScoopApp>,
)
    requires
        call_ensures(detect_with::<F>, (exe, is_there), r),
        parent_bytes(path_bytes(exe)) == Some(version_dir),
        parent_bytes(version_dir) == Some(app_dir),
        parent_bytes(app_dir) == Some(apps_dir),
        parent_bytes(apps_dir) == Some(root),
        forall|p: &Path|
            path_bytes(p) == joined(root, "shims"@) ==> !#[trigger] call_ensures(
                *is_there,
                (p,),
                true,
            ),
    ensures
        r is None,
{
    detection_goes_by_tree_and_shims(exe, is_there, r);
}

/// With a `shims` that no probe denies, what is located is detected, and
/// what is not located is never detected.
pub proof fn granted_shims_leave_it_to_the_tree<F: Fn(&Path) -> bool>(
    exe: &Path,
    is_there: &F,
    found: Option<ScoopApp>,
    r: Option<ScoopApp>,
)
    requires
        call_ensures(locate, (exe,), found),
        call_ensures(detect_with::<F>, (exe, is_there), r),
    ensures
        found is None ==> r is None,
        found matches Some(app) ==> ((forall|p: &Path|
            path_bytes(p) == joined(buf_bytes(&app.root), "shims"@) ==> !#[trigger] call_ensures(
                *is_there,
                (p,),
                false,
            )) ==> (r matches Some(detected) && {
            &&& detected.name@ == app.name@
            &&& buf_bytes(&detected.root) == buf_bytes(&app.root)
        })),
{
    apps_are_located_by_their_tree(exe, found);
    detection_goes_by_tree_and_shims(exe, is_there, r);
}

/// Detection asks of the probe only that it takes the `shims` of the root
/// four levels above the exe, and asks nothing of an exe in no app's tree.
pub proof fn detection_probes_the_shims_only<F: Fn(&Path) -> bool>(exe: &Path, is_there: &F)
    requires
        ({
            let parts = path_parts(path_bytes(exe));
            let n = parts.len() as int;
            let in_tree = {
                &&& n >= 4
                &&& !(parts[n - 1] is Root) && !(parts[n - 1] is Prefix)
                &&& !(parts[n - 2] is Root) && !(parts[n - 2] is Prefix)
                &&& parts[n - 3] matches PathPart::Named(name)
                &&& valid_utf8(name) && decode_utf8(name).len() > 0
                &&& parts[n - 4] matches PathPart::Named(apps)
                &&& apps.len() == 4
                &&& apps[0] == 0x61 || apps[0] == 0x41
                &&& apps[1] == 0x70 || apps[1] == 0x50
                &&& apps[2] == 0x70 || apps[2] == 0x50
                &&& apps[3] == 0x73 || apps[3] == 0x53
            };
            forall|p: &Path|
                {
                    &&& in_tree
                    &&& parent_bytes(path_bytes(exe)) matches Some(version_dir)
                    &&& parent_bytes(version_dir) matches Some(app_dir)
                    &&& parent_bytes(app_dir) matches Some(apps_dir)
                    &&& parent_bytes(apps_dir) matches Some(root)
                    &&& path_bytes(p) == joined(root, "shims"@)
                } ==> #[trigger] call_requires(*is_there, (p,))
        }),
    ensures
        call_requires(detect_with::<F>, (exe, is_there)),
{
    layout_by_letter(path_parts(path_bytes(exe)));
    four_levels_up(path_bytes(exe));
    assert forall|p: &Path| may_probe(path_bytes(exe), #[trigger] path_bytes(p)) implies call_requires(
        *is_there,
        (p,),
    ) by {}
}

/// A copy of an app has its name and its root.
pub proof fn copies_are_the_same_app(app: &ScoopApp, r: ScoopApp)
    requires
        call_ensures(ScoopApp::clone, (app,), r),
    ensures
        r.name@ == app.name@,
        buf_bytes(&r.root) == buf_bytes(&app.root),
{
}

/// Every file of an app lies at one fixed place below its root, which only
/// the app's name, the binary's and the bucket's have a part in.
pub proof fn files_have_their_place(
    app: &ScoopApp,
    bin: &str,
    bucket: &str,
    app_dir: PathBuf,
    current_dir: PathBuf,
    exe: PathBuf,
    install_json: PathBuf,
    manifest: PathBuf,
)
    requires
        call_ensures(ScoopApp::app_dir, (app,), app_dir),
        call_ensures(ScoopApp::current_dir, (app,), current_dir),
        call_ensures(ScoopApp::current_exe_path, (app, bin), exe),
        call_ensures(ScoopApp::install_json_path, (app,), install_json),
        call_ensures(ScoopApp::bucket_manifest_path, (app, bucket), manifest),
    ensures
        buf_bytes(&app_dir) == joined(joined(buf_bytes(&app.root), "apps"@), app.name@),
        buf_bytes(&current_dir) == joined(buf_bytes(&app_dir), "current"@),
        buf_bytes(&exe) == joined(buf_bytes(&current_dir), bin@ + ".exe"@),
        buf_bytes(&install_json) == joined(buf_bytes(&current_dir), "install.json"@),
        buf_bytes(&manifest) == joined(
            joined(joined(joined(buf_bytes(&app.root), "buckets"@), bucket@), "bucket"@),
            app.name@ + ".json"@,
        ),
{
    places(*app, bin@, bucket@);
}

/// Where the pieces of an app's files lead.
proof fn places(app: ScoopApp, bin: Seq<char>, bucket: Seq<char>)
    ensures
        ({
            let root = buf_bytes(&app.root);
            let app_dir = joined(joined(root, "apps"@), app.name@);
            let current_dir = joined(app_dir, "current"@);
            &&& app.bytes_at(app.app_dir_pieces()) == app_dir
            &&& app.bytes_at(app.current_dir_pieces()) == current_dir
            &&& app.bytes_at(app.current_exe_pieces(bin)) == joined(current_dir, bin + ".exe"@)
            &&& app.bytes_at(app.install_json_pieces()) == joined(current_dir, "install.json"@)
            &&& app.bytes_at(app.manifest_pieces(bucket)) == joined(
                joined(joined(joined(root, "buckets"@), bucket), "bucket"@),
                app.name@ + ".json"@,
            )
        }),
{
    reveal_with_fuel(joined_all, 5);
    let dir = app.app_dir_pieces();
    assert(dir.drop_last().drop_last().len() == 0);
    assert(app.current_dir_pieces().drop_last() =~= dir);
    assert(app.current_exe_pieces(bin).drop_last() =~= app.current_dir_pieces());
    assert(app.install_json_pieces().drop_last() =~= app.current_dir_pieces());
    assert(app.manifest_pieces(bucket).drop_last().drop_last().drop_last().drop_last().len() == 0);
}

/// The popover's profile lies in `popover` in `ai-usagebar` in the cache
/// root, whatever the root.
pub proof fn the_profile_has_its_place(cache_root: &Path, r: PathBuf)
    requires
        call_ensures(popover_data_dir, (cache_root,), r),
    ensures
        buf_bytes(&r) == joined(joined(path_bytes(cache_root), "ai-usagebar"@), "popover"@),
{
    reveal_with_fuel(joined_all, 3);
    assert(popover_pieces().drop_last().drop_last().len() == 0);
}

/// An app's bucket is the one that its `install.json` names: with a reader
/// that always gives the same for the same path, it is what
/// `bucket_from_install_json` makes of what the reader gives for that file,
/// and there is none where the reader gives nothing.
pub proof fn buckets_are_read_from_install_json<F: Fn(&Path) -> Option<String>>(
    app: &ScoopApp,
    read: &F,
    file: &Path,
    given: Option<String>,
    text: &str,
    named: Option<String>,
    r: Option<String>,
)
    requires
        call_ensures(ScoopApp::bucket::<F>, (app, read), r),
        path_bytes(file) == joined(
            joined(joined(joined(buf_bytes(&app.root), "apps"@), app.name@), "current"@),
            "install.json"@,
        ),
        call_ensures(*read, (file,), given),
        forall|p: &Path, other: Option<String>|
            path_bytes(p) == path_bytes(file) && #[trigger] call_ensures(*read, (p,), other) ==> (
            match (given, other) {
                (Some(a), Some(b)) => a@ == b@,
                (None, None) => true,
                _ => false,
            }),
        given matches Some(content) ==> content@ == text@,
        call_ensures(bucket_from_install_json, (text,), named),
    ensures
        given is None ==> r is None,
        given is Some ==> match (named, r) {
            (Some(a), Some(b)) => a@ == b@,
            (None, None) => true,
            _ => false,
        },
{
    places(*app, seq![], seq![]);
    assert(app.bucket_read(*read, opt_text(r)));
    let found = choose|found: Option<Seq<char>>| #[trigger]
        gives(*read, path_bytes(file), found) && opt_text(r) == match found {
            Some(t) => install_bucket(t),
            None => None,
        };
    assert(found == opt_text(given)) by {
        only_given(*read, file, given, found);
    }
}

/// A reader that always gives the same for a path gives nothing else.
proof fn only_given<F: Fn(&Path) -> Option<String>>(
    read: F,
    file: &Path,
    given: Option<String>,
    found: Option<Seq<char>>,
)
    requires
        gives(read, path_bytes(file), found),
        forall|p: &Path, other: Option<String>|
            path_bytes(p) == path_bytes(file) && #[trigger] call_ensures(read, (p,), other) ==> (
            match (given, other) {
                (Some(a), Some(b)) => a@ == b@,
                (None, None) => true,
                _ => false,
            }),
    ensures
        found == opt_text(given),
{
    let (p, t) = choose|p: &Path, t: Option<String>|
        #[trigger] path_bytes(p) == path_bytes(file) && #[trigger] call_ensures(read, (p,), t)
            && opt_text(t) == found;
    assert(call_ensures(read, (p,), t));
}

/// An app's manifest is the one in its bucket: with a reader that always
/// gives the same for the same path, it is what the reader gives for the
/// app's file in the bucket's directory, and there is none without a bucket.
pub proof fn manifests_are_read_from_their_bucket<F: Fn(&Path) -> Option<String>>(
    app: &ScoopApp,
    read: &F,
    bucket: Option<String>,
    file: &Path,
    given: Option<String>,
    r: Option<String>,
)
    requires
        call_ensures(ScoopApp::bucket_manifest_text::<F>, (app, read), r),
        call_ensures(ScoopApp::bucket::<F>, (app, read), bucket),
        forall|p: &Path, q: &Path, a: Option<String>, b: Option<String>|
            path_bytes(p) == path_bytes(q) && #[trigger] call_ensures(*read, (p,), a)
                && #[trigger] call_ensures(*read, (q,), b) ==> (match (a, b) {
                (Some(a), Some(b)) => a@ == b@,
                (None, None) => true,
                _ => false,
            }),
        bucket matches Some(b) ==> {
            &&& path_bytes(file) == joined(
                joined(joined(joined(buf_bytes(&app.root), "buckets"@), b@), "bucket"@),
                app.name@ + ".json"@,
            )
            &&& call_ensures(*read, (file,), given)
        },
    ensures
        bucket is None ==> r is None,
        bucket is Some ==> match (given, r) {
            (Some(a), Some(b)) => a@ == b@,
            (None, None) => true,
            _ => false,
        },
{
    let named = choose|named: Option<Seq<char>>| #[trigger]
        app.bucket_read(*read, named) && match named {
            Some(b) => gives(*read, app.bytes_at(app.manifest_pieces(b)), opt_text(r)),
            None => opt_text(r) is None,
        };
    one_bucket(*app, *read, opt_text(bucket), named);
    if let Some(b) = bucket {
        places(*app, seq![], b@);
        only_given(*read, file, given, opt_text(r));
    }
}

/// A reader that always gives the same for the same path leads to one
/// bucket.
proof fn one_bucket<F: Fn(&Path) -> Option<String>>(
    app: ScoopApp,
    read: F,
    bucket: Option<Seq<char>>,
    other: Option<Seq<char>>,
)
    requires
        app.bucket_read(read, bucket),
        app.bucket_read(read, other),
        forall|p: &Path, q: &Path, a: Option<String>, b: Option<String>|
            path_bytes(p) == path_bytes(q) && #[trigger] call_ensures(read, (p,), a)
                && #[trigger] call_ensures(read, (q,), b) ==> (match (a, b) {
                (Some(a), Some(b)) => a@ == b@,
                (None, None) => true,
                _ => false,
            }),
    ensures
        bucket == other,
{
    let install = app.bytes_at(app.install_json_pieces());
    let x = choose|x: Option<Seq<char>>| #[trigger]
        gives(read, install, x) && bucket == match x {
            Some(t) => install_bucket(t),
            None => None,
        };
    let y = choose|y: Option<Seq<char>>| #[trigger]
        gives(read, install, y) && other == match y {
            Some(t) => install_bucket(t),
            None => None,
        };
    let (p, t) = choose|p: &Path, t: Option<String>|
        #[trigger] path_bytes(p) == install && #[trigger] call_ensures(read, (p,), t) && opt_text(t)
            == x;
    only_given(read, p, t, y);
}

/// The version on offer and the homepage are what `version_from_manifest`
/// and `homepage_from_manifest` make of the app's manifest: with a reader
/// that always gives the same for the same path, of the text that
/// `bucket_manifest_text` gives. There are none without a manifest.
pub proof fn offers_are_read_from_the_manifest<F: Fn(&Path) -> Option<String>>(
    app: &ScoopApp,
    read: &F,
    manifest: Option<String>,
    text: &str,
    its_version: Option<String>,
    its_homepage: Option<String>,
    version: Option<String>,
    homepage: Option<String>,
)
    requires
        call_ensures(ScoopApp::bucket_manifest_version::<F>, (app, read), version),
        call_ensures(ScoopApp::bucket_manifest_homepage::<F>, (app, read), homepage),
        call_ensures(ScoopApp::bucket_manifest_text::<F>, (app, read), manifest),
        forall|p: &Path, q: &Path, a: Option<String>, b: Option<String>|
            path_bytes(p) == path_bytes(q) && #[trigger] call_ensures(*read, (p,), a)
                && #[trigger] call_ensures(*read, (q,), b) ==> (match (a, b) {
                (Some(a), Some(b)) => a@ == b@,
                (None, None) => true,
                _ => false,
            }),
        manifest matches Some(content) ==> content@ == text@,
        call_ensures(version_from_manifest, (text,), its_version),
        call_ensures(homepage_from_manifest, (text,), its_homepage),
    ensures
        manifest is None ==> version is None && homepage is None,
        manifest is Some ==> match (its_version, version) {
            (Some(a), Some(b)) => a@ == b@,
            (None, None) => true,
            _ => false,
        },
        manifest is Some ==> match (its_homepage, homepage) {
            (Some(a), Some(b)) => a@ == b@,
            (None, None) => true,
            _ => false,
        },
{
    let x = choose|x: Option<Seq<char>>| #[trigger]
        app.manifest_read(*read, x) && opt_text(version) == match x {
            Some(t) => manifest_version(t),
            None => None,
        };
    let y = choose|y: Option<Seq<char>>| #[trigger]
        app.manifest_read(*read, y) && opt_text(homepage) == match y {
            Some(t) => manifest_homepage(t),
            None => None,
        };
    one_manifest(*app, *read, x, opt_text(manifest));
    one_manifest(*app, *read, y, opt_text(manifest));
}

/// A reader that always gives the same for the same path leads to one
/// manifest.
proof fn one_manifest<F: Fn(&Path) -> Option<String>>(
    app: ScoopApp,
    read: F,
    manifest: Option<Seq<char>>,
    other: Option<Seq<char>>,
)
    requires
        app.manifest_read(read, manifest),
        app.manifest_read(read, other),
        forall|p: &Path, q: &Path, a: Option<String>, b: Option<String>|
            path_bytes(p) == path_bytes(q) && #[trigger] call_ensures(read, (p,), a)
                && #[trigger] call_ensures(read, (q,), b) ==> (match (a, b) {
                (Some(a), Some(b)) => a@ == b@,
                (None, None) => true,
                _ => false,
            }),
    ensures
        manifest == other,
{
    let x = choose|x: Option<Seq<char>>| #[trigger]
        app.bucket_read(read, x) && match x {
            Some(b) => gives(read, app.bytes_at(app.manifest_pieces(b)), manifest),
            None => manifest is None,
        };
    let y = choose|y: Option<Seq<char>>| #[trigger]
        app.bucket_read(read, y) && match y {
            Some(b) => gives(read, app.bytes_at(app.manifest_pieces(b)), other),
            None => other is None,
        };
    one_bucket(app, read, x, y);
    if let Some(b) = x {
        let file = app.bytes_at(app.manifest_pieces(b));
        let (p, t) = choose|p: &Path, t: Option<String>|
            #[trigger] path_bytes(p) == file && #[trigger] call_ensures(read, (p,), t) && opt_text(
                t,
            ) == manifest;
        only_given(read, p, t, other);
    }
}

/// Finding the bucket asks of the reader only that it takes `install.json`.
pub proof fn buckets_need_install_json_only<F: Fn(&Path) -> Option<String>>(
    app: &ScoopApp,
    read: &F,
)
    requires
        forall|p: &Path|
            path_bytes(p) == joined(
                joined(joined(joined(buf_bytes(&app.root), "apps"@), app.name@), "current"@),
                "install.json"@,
            ) ==> #[trigger] call_requires(*read, (p,)),
    ensures
        call_requires(ScoopApp::bucket::<F>, (app, read)),
{
    places(*app, seq![], seq![]);
    assert forall|p: &Path| app.bucket_may_read(#[trigger] path_bytes(p)) implies call_requires(
        *read,
        (p,),
    ) by {}
}

/// Finding the manifest, and what is read from it, asks of the reader only
/// that it takes `install.json` and the app's file in the directory of the
/// bucket that `install.json` names.
pub proof fn manifests_need_two_files_only<F: Fn(&Path) -> Option<String>>(
    app: &ScoopApp,
    read: &F,
)
    requires
        forall|p: &Path|
            path_bytes(p) == joined(
                joined(joined(joined(buf_bytes(&app.root), "apps"@), app.name@), "current"@),
                "install.json"@,
            ) ==> #[trigger] call_requires(*read, (p,)),
        forall|p: &Path, q: &Path, content: String|
            {
                &&& path_bytes(q) == joined(
                    joined(joined(joined(buf_bytes(&app.root), "apps"@), app.name@), "current"@),
                    "install.json"@,
                )
                &&& #[trigger] call_ensures(*read, (q,), Some(content))
                &&& json_value(content@) matches Some(value)
                &&& json_members(value) matches Some(members)
                &&& members.contains_key("bucket"@)
                &&& json_chars(members["bucket"@]) matches Some(field)
                &&& path_bytes(p) == joined(
                    joined(
                        joined(joined(buf_bytes(&app.root), "buckets"@), trimmed(field)),
                        "bucket"@,
                    ),
                    app.name@ + ".json"@,
                )
            } ==> #[trigger] call_requires(*read, (p,)),
    ensures
        call_requires(ScoopApp::bucket_manifest_text::<F>, (app, read)),
        call_requires(ScoopApp::bucket_manifest_version::<F>, (app, read)),
        call_requires(ScoopApp::bucket_manifest_homepage::<F>, (app, read)),
{
    places(*app, seq![], seq![]);
    assert forall|p: &Path| app.manifest_may_read(*read, #[trigger] path_bytes(p)) implies call_requires(
        *read,
        (p,),
    ) by {
        if !app.bucket_may_read(path_bytes(p)) {
            let bucket = choose|bucket: Seq<char>| #[trigger]
                app.bucket_read(*read, Some(bucket)) && path_bytes(p) == app.bytes_at(
                    app.manifest_pieces(bucket),
                );
            places(*app, seq![], bucket);
            let install = app.bytes_at(app.install_json_pieces());
            let text = choose|text: Option<Seq<char>>| #[trigger]
                gives(*read, install, text) && Some(bucket) == match text {
                    Some(t) => install_bucket(t),
                    None => None,
                };
            let (q, given) = choose|q: &Path, given: Option<String>|
                #[trigger] path_bytes(q) == install && #[trigger] call_ensures(
                    *read,
                    (q,),
                    given,
                ) && opt_text(given) == text;
            assert(given == Some(given->0));
            assert(call_ensures(*read, (q,), Some(given->0)));
        }
    }
}

} // verus!
