//! A tray installed by Scoop updates through Scoop.
//!
//! Scoop keeps every version of an app under `<root>\apps\<name>\<version>\`
//! and points the `current` junction at the active one; swapping exes in
//! place there would leave Scoop's own bookkeeping (and its shims) behind.
//! So when the running exe sits under such a tree the tray asks Scoop for
//! the update instead: the check reads the bucket's manifest and the install
//! hands `scoop update <name>` to a detached PowerShell that waits for the
//! tray to exit, updates, and starts the new one.
//!
//! Nothing here touches the system: detection takes the exe path and a probe,
//! the manifest readers take a function that reads a file, and the script is
//! a string.
use crate::manifest::{
    bucket_from_install_json, homepage_from_manifest, install_bucket, manifest_homepage,
    manifest_version, plain_name, version_from_manifest,
};
use crate::paths::{
    appended, buf_bytes, display, display_chars, entry_name, file_name, join, join_all, joined,
    joined_all, longer_entry_name, one_component, parent_bytes, parts_under, path_bytes,
    path_parts, separator, steady, without_separators, PathPart,
};
use crate::quotes::quotes_of_program;
use crate::script::{program, update_program};
use crate::text::{occurrences, occurrences_add, occurrences_of_absent, opt_text};
use std::path::{Path, PathBuf};
use vstd::prelude::*;
use vstd::utf8::{
    decode_utf8, encode_utf8, is_ascii_chars, is_ascii_chars_encode_utf8, valid_utf8,
};

verus! {

/// Where a Scoop-installed tray lives: `<root>/apps/<name>/...`.
#[derive(Debug, PartialEq, Eq)]
pub struct ScoopApp {
    pub name: String,
    pub root: PathBuf,
}

impl Clone for ScoopApp {
    fn clone(&self) -> (r: Self)
        ensures
            r.name@ == self.name@,
            buf_bytes(&r.root) == buf_bytes(&self.root),
    {
        ScoopApp { name: self.name.clone(), root: self.root.as_path().to_path_buf() }
    }
}

/// The binary Scoop's `current` junction starts.
pub const TRAY_BIN: &'static str = "ai-usagebar-tray";

/// An ASCII letter in lower case; any other byte as it is.
pub open spec fn ascii_lower(b: u8) -> u8 {
    if 0x41 <= b <= 0x5a {
        (b + 0x20) as u8
    } else {
        b
    }
}

/// Whether two byte strings agree up to the case of ASCII letters.
pub open spec fn same_ignoring_ascii_case(a: Seq<u8>, b: Seq<u8>) -> bool {
    &&& a.len() == b.len()
    &&& forall|i: int| 0 <= i < a.len() ==> ascii_lower(#[trigger] a[i]) == ascii_lower(b[i])
}

/// Whether a directory with this name is Scoop's `apps`.
pub open spec fn apps_dir(name: Seq<u8>) -> bool {
    same_ignoring_ascii_case(name, encode_utf8("apps"@))
}

/// The app's name and the parts of its root, when an exe with these parts
/// sits in `<root>/apps/<name>/<current-or-version>/`.
pub open spec fn scoop_layout(exe: Seq<PathPart>) -> Option<(Seq<char>, Seq<PathPart>)> {
    let n = exe.len() as int;
    if n >= 4 && exe[n - 1].is_entry() && exe[n - 2].is_entry() {
        match (exe[n - 3], exe[n - 4]) {
            (PathPart::Named(name), PathPart::Named(apps)) => if apps_dir(apps) && valid_utf8(name)
                && decode_utf8(name).len() > 0 {
                Some((decode_utf8(name), exe.take(n - 4)))
            } else {
                None
            },
            _ => None,
        }
    } else {
        None
    }
}

/// The bytes of the path `levels` above the one with the bytes `path`.
pub open spec fn ancestor(path: Seq<u8>, levels: nat) -> Option<Seq<u8>>
    decreases levels,
{
    if levels == 0 {
        Some(path)
    } else {
        match parent_bytes(path) {
            Some(parent) => ancestor(parent, (levels - 1) as nat),
            None => None,
        }
    }
}

/// Whether `app` is the one that an exe with the bytes `exe` belongs to.
pub open spec fn sits_in(exe: Seq<u8>, app: ScoopApp) -> bool {
    &&& scoop_layout(path_parts(exe)) == Some((app.name@, path_parts(buf_bytes(&app.root))))
    &&& ancestor(exe, 4) == Some(buf_bytes(&app.root))
}

/// Whether `probe` may answer `there` about the path with the bytes `path`.
pub open spec fn answers<F: Fn(&Path) -> bool>(probe: F, path: Seq<u8>, there: bool) -> bool {
    exists|p: &Path| #[trigger] path_bytes(p) == path && call_ensures(probe, (p,), there)
}

/// The bytes of the `shims` directory that makes an exe's tree Scoop's.
pub open spec fn shims_of(exe: Seq<u8>) -> Seq<u8> {
    joined(ancestor(exe, 4)->0, "shims"@)
}

/// Whether `r` is what an exe with the bytes `exe` is detected as, with
/// `probe` asked about its `shims` directory.
pub open spec fn detected<F: Fn(&Path) -> bool>(
    probe: F,
    exe: Seq<u8>,
    r: Option<ScoopApp>,
) -> bool {
    match r {
        Some(app) => sits_in(exe, app) && answers(probe, shims_of(exe), true),
        None => scoop_layout(path_parts(exe)) is None || (ancestor(exe, 4) is Some && answers(
            probe,
            shims_of(exe),
            false,
        )),
    }
}

/// Whether a path prints as it is when it is Unicode.
pub open spec fn prints_as_it_is(path: Seq<u8>) -> bool {
    valid_utf8(path) ==> display_chars(path) == decode_utf8(path)
}

/// Appending a file name that is ASCII and free of quotes to a path adds no
/// quote to it.
proof fn quotes_of_appended(path: Seq<u8>, base: Seq<u8>, file: Seq<char>)
    requires
        without_separators(path) == without_separators(base) + encode_utf8(file),
        is_ascii_chars(file),
        !file.contains('\''),
    ensures
        occurrences(path, 0x27) == occurrences(base, 0x27),
{
    occurrences_without_separators(path);
    occurrences_without_separators(base);
    is_ascii_chars_encode_utf8(file);
    let bytes = encode_utf8(file);
    assert(!bytes.contains(0x27)) by {
        if bytes.contains(0x27) {
            let i = bytes.index_of(0x27);
            assert(file[i] == '\'');
        }
    }
    occurrences_of_absent(bytes, 0x27);
    occurrences_add(without_separators(base), bytes, 0x27);
}

/// Leaving out the separators leaves out no quote.
proof fn occurrences_without_separators(path: Seq<u8>)
    ensures
        occurrences(without_separators(path), 0x27) == occurrences(path, 0x27),
    decreases path.len(),
{
    reveal(Seq::filter);
    if path.len() > 0 {
        occurrences_without_separators(path.drop_last());
        let kept = without_separators(path.drop_last());
        if !separator(path.last()) {
            assert(kept.push(path.last()).drop_last() =~= kept);
        }
    }
}

/// Whether an exe goes by what lies two levels above it: that decides the
/// layout, and it is the same whichever two components were joined on last.
pub open spec fn goes_by_app_dir(exe: Seq<u8>) -> bool {
    &&& match ancestor(exe, 2) {
        Some(app_dir) => {
            let parts = path_parts(exe);
            let n = parts.len() as int;
            n >= 2 && parts[n - 1].is_entry() && parts[n - 2].is_entry() && parts.take(n - 2)
                == path_parts(app_dir)
        },
        None => scoop_layout(path_parts(exe)) is None,
    }
    &&& forall|
        dir: Seq<u8>,
        version: Seq<char>,
        file: Seq<char>,
        other_version: Seq<char>,
        other_file: Seq<char>,
    |
        #![trigger joined(joined(dir, version), file), joined(joined(dir, other_version), other_file)]
        exe == joined(joined(dir, version), file) && one_component(version) && one_component(file)
            && one_component(other_version) && one_component(other_file) ==> ancestor(exe, 2)
            == ancestor(joined(joined(dir, other_version), other_file), 2)
}

/// Whether detecting an exe with the bytes `exe` may probe the path with the
/// bytes `path`: only its `shims` directory, and only when the layout fits.
pub open spec fn may_probe(exe: Seq<u8>, path: Seq<u8>) -> bool {
    scoop_layout(path_parts(exe)) is Some && ancestor(exe, 4) is Some && path == shims_of(exe)
}

/// Whether `read` may give `text` for the path with the bytes `path`.
pub open spec fn gives<F: Fn(&Path) -> Option<String>>(
    read: F,
    path: Seq<u8>,
    text: Option<Seq<char>>,
) -> bool {
    exists|p: &Path, t: Option<String>|
        #[trigger] path_bytes(p) == path && #[trigger] call_ensures(read, (p,), t) && opt_text(t)
            == text
}

/// `b` in lower case, if it is an ASCII letter.
fn to_ascii_lower(b: u8) -> (r: u8)
    ensures
        r == ascii_lower(b),
{
    if 0x41 <= b && b <= 0x5a {
        b + 0x20
    } else {
        b
    }
}

/// Whether a directory name is `apps`, in any case.
pub fn is_apps_dir(name: &[u8]) -> (r: bool)
    ensures
        r == apps_dir(name@),
{
    let apps = "apps".as_bytes();
    if name.len() != apps.len() {
        return false;
    }
    let mut i: usize = 0;
    while i < name.len()
        invariant
            i <= name@.len() == apps@.len(),
            forall|k: int| 0 <= k < i ==> ascii_lower(#[trigger] name@[k]) == ascii_lower(apps@[k]),
            apps@ == encode_utf8("apps"@),
        decreases name@.len() - i,
    {
        if to_ascii_lower(name[i]) != to_ascii_lower(apps[i]) {
            return false;
        }
        i += 1;
    }
    true
}

/// An app's name from its directory's: Unicode text that is not empty.
pub fn app_name(dir: &[u8]) -> (r: Option<String>)
    ensures
        opt_text(r) == if valid_utf8(dir@) && decode_utf8(dir@).len() > 0 {
            Some(decode_utf8(dir@))
        } else {
            None
        },
{
    match std::str::from_utf8(dir) {
        Ok(name) => if name.is_empty() {
            None
        } else {
            Some(name.to_owned())
        },
        Err(_) => None,
    }
}

/// The app that the exe belongs to, going by its path alone.
pub fn locate(exe: &Path) -> (r: Option<ScoopApp>)
    ensures
        match r {
            Some(app) => sits_in(path_bytes(exe), app),
            None => scoop_layout(path_parts(path_bytes(exe))) is None,
        },
        goes_by_app_dir(path_bytes(exe)),
{
    reveal_with_fuel(ancestor, 5);
    let version_dir = exe.parent()?;
    let app_dir = version_dir.parent()?;
    proof {
        let parts = path_parts(path_bytes(exe));
        assert(path_parts(path_bytes(app_dir)) =~= parts.take(parts.len() - 2));
    }
    let apps_dir = app_dir.parent()?;
    if !is_apps_dir(file_name(apps_dir)?) {
        return None;
    }
    let root = apps_dir.parent()?;
    let name = app_name(file_name(app_dir)?)?;
    proof {
        let parts = path_parts(path_bytes(exe));
        assert(path_parts(path_bytes(root)) =~= parts.take(parts.len() - 4));
    }
    Some(ScoopApp { name, root: root.to_path_buf() })
}

/// The exe must sit in `<root>/apps/<name>/<current-or-version>/` and the
/// root must have Scoop's `shims` directory. Both the junction path and the
/// resolved version path are accepted: the running exe may report either.
pub fn detect_with<F: Fn(&Path) -> bool>(exe: &Path, is_there: &F) -> (r: Option<ScoopApp>)
    requires
        forall|p: &Path|
            may_probe(path_bytes(exe), #[trigger] path_bytes(p)) ==> call_requires(*is_there, (p,)),
    ensures
        detected(*is_there, path_bytes(exe), r),
        goes_by_app_dir(path_bytes(exe)),
{
    let app = locate(exe)?;
    let shims = join(app.root.as_path(), "shims");
    let probed = shims.as_path();
    let there = is_there(probed);
    assert(answers(*is_there, path_bytes(probed), there));
    if there {
        Some(app)
    } else {
        None
    }
}

impl ScoopApp {
    /// Where the app's directory lies below the root.
    pub open spec fn app_dir_pieces(self) -> Seq<Seq<char>> {
        seq!["apps"@, self.name@]
    }

    /// Where the junction to the active version lies below the root.
    pub open spec fn current_dir_pieces(self) -> Seq<Seq<char>> {
        seq!["apps"@, self.name@, "current"@]
    }

    /// Where an exe of the active version lies below the root.
    pub open spec fn current_exe_pieces(self, bin: Seq<char>) -> Seq<Seq<char>> {
        seq!["apps"@, self.name@, "current"@, bin + ".exe"@]
    }

    /// Where `install.json` lies below the root.
    pub open spec fn install_json_pieces(self) -> Seq<Seq<char>> {
        seq!["apps"@, self.name@, "current"@, "install.json"@]
    }

    /// Where the app's manifest lies below the root, for a bucket.
    pub open spec fn manifest_pieces(self, bucket: Seq<char>) -> Seq<Seq<char>> {
        seq!["buckets"@, bucket, "bucket"@, self.name@ + ".json"@]
    }

    /// The bytes of the path at `pieces` below the root.
    pub open spec fn bytes_at(self, pieces: Seq<Seq<char>>) -> Seq<u8> {
        joined_all(buf_bytes(&self.root), pieces)
    }

    /// `<root>/apps/<name>`.
    pub fn app_dir(&self) -> (r: PathBuf)
        ensures
            buf_bytes(&r) == self.bytes_at(self.app_dir_pieces()),
            steady(buf_bytes(&self.root)) && entry_name(self.name@) ==> path_parts(
                buf_bytes(&r),
            ) == parts_under(buf_bytes(&self.root), self.app_dir_pieces()),
    {
        let pieces = ["apps", self.name.as_str()];
        proof {
            reveal_strlit("apps");
            longer_entry_name("apps"@);
            assert(pieces@.map_values(|piece: &str| piece@) =~= self.app_dir_pieces());
        }
        join_all(self.root.as_path(), &pieces)
    }

    /// `<root>/apps/<name>/current`: the junction to the active version.
    pub fn current_dir(&self) -> (r: PathBuf)
        ensures
            buf_bytes(&r) == self.bytes_at(self.current_dir_pieces()),
            steady(buf_bytes(&self.root)) && entry_name(self.name@) ==> {
                &&& path_parts(buf_bytes(&r)) == parts_under(
                    buf_bytes(&self.root),
                    self.current_dir_pieces(),
                )
                &&& steady(buf_bytes(&r))
            },
    {
        let pieces = ["apps", self.name.as_str(), "current"];
        proof {
            reveal_strlit("apps");
            reveal_strlit("current");
            longer_entry_name("apps"@);
            longer_entry_name("current"@);
            assert(pieces@.map_values(|piece: &str| piece@) =~= self.current_dir_pieces());
        }
        join_all(self.root.as_path(), &pieces)
    }

    /// `<root>/apps/<name>/current/<bin>.exe`: the junction path, so the
    /// relaunch after an update starts whatever version is current then.
    pub fn current_exe_path(&self, bin: &str) -> (r: PathBuf)
        ensures
            buf_bytes(&r) == self.bytes_at(self.current_exe_pieces(bin@)),
            steady(buf_bytes(&self.root)) && entry_name(self.name@) && entry_name(
                bin@ + ".exe"@,
            ) ==> path_parts(buf_bytes(&r)) == parts_under(
                buf_bytes(&self.root),
                self.current_exe_pieces(bin@),
            ),
            appended(
                buf_bytes(&r),
                self.bytes_at(self.current_dir_pieces()),
                bin@ + ".exe"@,
            ),
    {
        let file = bin.to_owned().concat(".exe");
        let pieces = ["apps", self.name.as_str(), "current", file.as_str()];
        proof {
            reveal_strlit("apps");
            reveal_strlit("current");
            longer_entry_name("apps"@);
            longer_entry_name("current"@);
            assert(pieces@.map_values(|piece: &str| piece@) =~= self.current_exe_pieces(bin@));
            assert(self.current_exe_pieces(bin@).drop_last() =~= self.current_dir_pieces());
        }
        join_all(self.root.as_path(), &pieces)
    }

    /// `<root>/apps/<name>/current/install.json`: what Scoop wrote about the
    /// active version.
    pub fn install_json_path(&self) -> (r: PathBuf)
        ensures
            buf_bytes(&r) == self.bytes_at(self.install_json_pieces()),
            steady(buf_bytes(&self.root)) && entry_name(self.name@) ==> path_parts(
                buf_bytes(&r),
            ) == parts_under(buf_bytes(&self.root), self.install_json_pieces()),
    {
        let pieces = ["apps", self.name.as_str(), "current", "install.json"];
        proof {
            reveal_strlit("apps");
            reveal_strlit("current");
            reveal_strlit("install.json");
            longer_entry_name("apps"@);
            longer_entry_name("current"@);
            longer_entry_name("install.json"@);
            assert(pieces@.map_values(|piece: &str| piece@) =~= self.install_json_pieces());
        }
        join_all(self.root.as_path(), &pieces)
    }

    /// `<root>/buckets/<bucket>/bucket/<name>.json`: the bucket's manifest of
    /// this app.
    pub fn bucket_manifest_path(&self, bucket: &str) -> (r: PathBuf)
        ensures
            buf_bytes(&r) == self.bytes_at(self.manifest_pieces(bucket@)),
            steady(buf_bytes(&self.root)) && entry_name(bucket@) && entry_name(
                self.name@ + ".json"@,
            ) ==> path_parts(buf_bytes(&r)) == parts_under(
                buf_bytes(&self.root),
                self.manifest_pieces(bucket@),
            ),
    {
        let file = self.name.clone().concat(".json");
        let pieces = ["buckets", bucket, "bucket", file.as_str()];
        proof {
            reveal_strlit("buckets");
            reveal_strlit("bucket");
            longer_entry_name("buckets"@);
            longer_entry_name("bucket"@);
            assert(pieces@.map_values(|piece: &str| piece@) =~= self.manifest_pieces(bucket@));
        }
        join_all(self.root.as_path(), &pieces)
    }

    /// Whether `bucket` is what reading `install.json` with `read` leads to.
    pub open spec fn bucket_read<F: Fn(&Path) -> Option<String>>(
        self,
        read: F,
        bucket: Option<Seq<char>>,
    ) -> bool {
        exists|text: Option<Seq<char>>| #[trigger]
            gives(read, self.bytes_at(self.install_json_pieces()), text) && bucket == match text {
                Some(t) => install_bucket(t),
                None => None,
            }
    }

    /// Whether `manifest` is what reading the bucket's manifest with `read`
    /// leads to.
    pub open spec fn manifest_read<F: Fn(&Path) -> Option<String>>(
        self,
        read: F,
        manifest: Option<Seq<char>>,
    ) -> bool {
        exists|bucket: Option<Seq<char>>| #[trigger]
            self.bucket_read(read, bucket) && match bucket {
                Some(b) => gives(read, self.bytes_at(self.manifest_pieces(b)), manifest),
                None => manifest is None,
            }
    }

    /// Whether finding the bucket may read the path with the bytes `path`:
    /// only `install.json`.
    pub open spec fn bucket_may_read(self, path: Seq<u8>) -> bool {
        path == self.bytes_at(self.install_json_pieces())
    }

    /// Whether finding the manifest with `read` may read the path with the
    /// bytes `path`: only `install.json`, and the manifest of a bucket that
    /// it named.
    pub open spec fn manifest_may_read<F: Fn(&Path) -> Option<String>>(
        self,
        read: F,
        path: Seq<u8>,
    ) -> bool {
        ||| self.bucket_may_read(path)
        ||| exists|bucket: Seq<char>| #[trigger]
            self.bucket_read(read, Some(bucket)) && path == self.bytes_at(
                self.manifest_pieces(bucket),
            )
    }

    /// The bucket this app was installed from, per `current/install.json`,
    /// which `read` reads.
    pub fn bucket<F: Fn(&Path) -> Option<String>>(&self, read: &F) -> (r: Option<String>)
        requires
            forall|p: &Path|
                self.bucket_may_read(#[trigger] path_bytes(p)) ==> call_requires(*read, (p,)),
        ensures
            self.bucket_read(*read, opt_text(r)),
            r matches Some(b) ==> plain_name(b@),
    {
        let path = self.install_json_path();
        let file = path.as_path();
        let found = read(file);
        assert(gives(*read, path_bytes(file), opt_text(found)));
        let text = found?;
        bucket_from_install_json(text.as_str())
    }

    /// The text of the bucket's manifest, which `read` reads.
    pub fn bucket_manifest_text<F: Fn(&Path) -> Option<String>>(&self, read: &F) -> (r: Option<
        String,
    >)
        requires
            forall|p: &Path|
                self.manifest_may_read(*read, #[trigger] path_bytes(p)) ==> call_requires(
                    *read,
                    (p,),
                ),
        ensures
            self.manifest_read(*read, opt_text(r)),
    {
        let bucket = self.bucket(read)?;
        let path = self.bucket_manifest_path(bucket.as_str());
        let file = path.as_path();
        assert(self.bucket_read(*read, Some(bucket@)));
        assert(self.manifest_may_read(*read, path_bytes(file)));
        let found = read(file);
        proof {
            assert(gives(*read, path_bytes(file), opt_text(found)));
        }
        found
    }

    /// The version the bucket currently offers.
    pub fn bucket_manifest_version<F: Fn(&Path) -> Option<String>>(&self, read: &F) -> (r: Option<
        String,
    >)
        requires
            forall|p: &Path|
                self.manifest_may_read(*read, #[trigger] path_bytes(p)) ==> call_requires(
                    *read,
                    (p,),
                ),
        ensures
            exists|manifest: Option<Seq<char>>| #[trigger]
                self.manifest_read(*read, manifest) && opt_text(r) == match manifest {
                    Some(t) => manifest_version(t),
                    None => None,
                },
    {
        let found = self.bucket_manifest_text(read);
        assert(self.manifest_read(*read, opt_text(found)));
        let text = found?;
        version_from_manifest(text.as_str())
    }

    /// The manifest's GitHub homepage, if it names one.
    pub fn bucket_manifest_homepage<F: Fn(&Path) -> Option<String>>(&self, read: &F) -> (r: Option<
        String,
    >)
        requires
            forall|p: &Path|
                self.manifest_may_read(*read, #[trigger] path_bytes(p)) ==> call_requires(
                    *read,
                    (p,),
                ),
        ensures
            exists|manifest: Option<Seq<char>>| #[trigger]
                self.manifest_read(*read, manifest) && opt_text(r) == match manifest {
                    Some(t) => manifest_homepage(t),
                    None => None,
                },
    {
        let found = self.bucket_manifest_text(read);
        assert(self.manifest_read(*read, opt_text(found)));
        let text = found?;
        homepage_from_manifest(text.as_str())
    }

    /// The update program for this app, with its paths as they print.
    pub open spec fn update_text(self, tray_pid: nat, log: Seq<u8>) -> Seq<char> {
        program(
            self.name@,
            display_chars(self.bytes_at(self.current_exe_pieces(TRAY_BIN@))),
            display_chars(self.bytes_at(self.current_dir_pieces())),
            tray_pid,
            display_chars(log),
        )
    }

    /// One PowerShell program that waits for this tray to exit, runs
    /// `scoop update <name>` (which refuses while the exe is running), and
    /// starts the updated tray with the relaunch marker set so it waits for
    /// the single-instance mutex instead of quitting. Everything is
    /// transcribed to `log` for the user to read when it goes wrong, with the
    /// PowerShell and git in use named first.
    ///
    /// `scoop update <app>` also updates Scoop itself when it thinks it is
    /// stale, and a `git pull` that fails there aborts the whole update; a
    /// network blip at the wrong second must not strand the user on the old
    /// version, so the update is tried up to three times, five seconds apart.
    /// The relaunch happens either way: `current` still points at whatever
    /// version Scoop left in place.
    ///
    /// The single quotes are always even in number: twelve, and those of the
    /// values put in, doubled each time.
    pub fn update_script(&self, tray_pid: u32, log: &Path) -> (r: String)
        ensures
            r@ == self.update_text(tray_pid as nat, path_bytes(log)),
            occurrences(r@, '\'') % 2 == 0,
            ({
                let exe = self.bytes_at(self.current_exe_pieces(TRAY_BIN@));
                let dir = self.bytes_at(self.current_dir_pieces());
                &&& prints_as_it_is(exe)
                &&& prints_as_it_is(dir)
                &&& prints_as_it_is(path_bytes(log))
                &&& occurrences(r@, '\'') == 12 + 2 * occurrences(
                    display_chars(path_bytes(log)),
                    '\'',
                ) + 4 * occurrences(
                    self.name@,
                    '\'',
                ) + 4 * occurrences(display_chars(dir), '\'')
            }),
    {
        let exe = self.current_exe_path(TRAY_BIN);
        let dir = self.current_dir();
        let exe_text = display(exe.as_path());
        let dir_text = display(dir.as_path());
        let log_text = display(log);
        proof {
            reveal_strlit("ai-usagebar-tray");
            reveal_strlit(".exe");
            let file = TRAY_BIN@ + ".exe"@;
            longer_entry_name(file);
            assert(occurrences(exe_text@, '\'') == occurrences(buf_bytes(&exe), 0x27));
            assert(occurrences(dir_text@, '\'') == occurrences(buf_bytes(&dir), 0x27));
            quotes_of_program(self.name@, exe_text@, dir_text@, tray_pid as nat, log_text@);
            reveal_strlit("current");
            longer_entry_name("current"@);
            let pieces = self.current_dir_pieces();
            assert(buf_bytes(&dir) == joined(self.bytes_at(pieces.drop_last()), "current"@));
            quotes_of_appended(buf_bytes(&exe), buf_bytes(&dir), file);
        }
        update_program(
            self.name.as_str(),
            exe_text.as_str(),
            dir_text.as_str(),
            tray_pid,
            log_text.as_str(),
        )
    }
}

} // verus!
