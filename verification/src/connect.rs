//! `agent-browser connect`: which action the arguments ask for, where the
//! native-messaging host manifest lives for each Chromium-family browser,
//! and what the launcher script and manifest contain.

use vstd::prelude::*;
use crate::text::{join_path, join_path_str, str_eq};
use crate::json::string_views;

verus! {

/// Native-messaging host name; the manifest file is named after it.
pub const HOST_NAME: &'static str = "com.agent_browser.connect";

/// Id of the `ab-connect` extension, the only origin allowed to talk to
/// the host.
pub const EXTENSION_ID: &'static str = "bdoiejojpjogcjojeladhioioijhgade";

/// What `agent-browser connect` was asked to do.
#[derive(PartialEq, Eq, Structural, Debug, Clone, Copy)]
pub enum ConnectAction {
    Install,
    Uninstall,
    Status,
}

/// Whether some argument is `long` or `short`.
pub open spec fn names_flag(args: Seq<Seq<char>>, long: Seq<char>, short: Seq<char>) -> bool {
    exists|i: int| 0 <= i < args.len() && (args[i] == long || args[i] == short)
}

/// The action the arguments ask for: uninstalling wins over installing,
/// and with neither flag the status is reported.
pub open spec fn spec_connect_action(args: Seq<Seq<char>>) -> ConnectAction {
    if names_flag(args, "--uninstall"@, "uninstall"@) {
        ConnectAction::Uninstall
    } else if names_flag(args, "--install"@, "install"@) {
        ConnectAction::Install
    } else {
        ConnectAction::Status
    }
}

/// Whether some argument of `args` is `long` or `short`.
fn any_arg_is(args: &[String], long: &str, short: &str) -> (r: bool)
    ensures
        r == names_flag(string_views(args@), long@, short@),
{
    let ghost views = string_views(args@);
    let mut i: usize = 0;
    while i < args.len()
        invariant
            i <= args@.len(),
            views == string_views(args@),
            forall|j: int| 0 <= j < i ==> !(views[j] == long@ || views[j] == short@),
        decreases args@.len() - i,
    {
        if str_eq(args[i].as_str(), long) || str_eq(args[i].as_str(), short) {
            assert(views[i as int] == args@[i as int]@);
            return true;
        }
        i = i + 1;
    }
    false
}

/// The action that the command line `args` (including the leading
/// subcommand name) asks for.
pub fn connect_action(args: &[String]) -> (a: ConnectAction)
    ensures
        a == spec_connect_action(string_views(args@)),
{
    if any_arg_is(args, "--uninstall", "uninstall") {
        ConnectAction::Uninstall
    } else if any_arg_is(args, "--install", "install") {
        ConnectAction::Install
    } else {
        ConnectAction::Status
    }
}

/// The operating-system family, which decides where browsers keep their
/// native-messaging host manifests.
#[derive(PartialEq, Eq, Structural, Debug, Clone, Copy)]
pub enum Platform {
    MacOs,
    OtherUnix,
    Other,
}

/// The browser profile directories, relative to the user's configuration
/// directory, that are searched on each platform.
pub open spec fn browser_subdirs(p: Platform) -> Seq<Seq<char>> {
    match p {
        Platform::MacOs => seq![
            "Google/Chrome"@,
            "Google/Chrome Beta"@,
            "Google/Chrome Canary"@,
            "Chromium"@,
            "Microsoft Edge"@,
            "BraveSoftware/Brave-Browser"@,
        ],
        Platform::OtherUnix => seq![
            "google-chrome"@,
            "chromium"@,
            "microsoft-edge"@,
            "BraveSoftware/Brave-Browser"@,
        ],
        Platform::Other => Seq::empty(),
    }
}

fn browser_subdir_list(p: Platform) -> (v: Vec<&'static str>)
    ensures
        v@.map_values(|s: &str| s@) == browser_subdirs(p),
{
    let v: Vec<&'static str> = match p {
        Platform::MacOs => vec![
            "Google/Chrome",
            "Google/Chrome Beta",
            "Google/Chrome Canary",
            "Chromium",
            "Microsoft Edge",
            "BraveSoftware/Brave-Browser",
        ],
        Platform::OtherUnix => vec![
            "google-chrome",
            "chromium",
            "microsoft-edge",
            "BraveSoftware/Brave-Browser",
        ],
        Platform::Other => Vec::new(),
    };
    assert(v@.map_values(|s: &str| s@) =~= browser_subdirs(p));
    v
}

/// The browser profile directories under the configuration directory
/// `config`, or none when there is no configuration directory.
pub open spec fn spec_browser_dirs(config: Option<Seq<char>>, p: Platform) -> Seq<Seq<char>> {
    match config {
        None => Seq::empty(),
        Some(c) => browser_subdirs(p).map_values(|s: Seq<char>| join_path(c, s)),
    }
}

/// The `NativeMessagingHosts` directories of the browsers.
pub open spec fn spec_native_messaging_dirs(config: Option<Seq<char>>, p: Platform) -> Seq<
    Seq<char>,
> {
    spec_browser_dirs(config, p).map_values(|d: Seq<char>| join_path(d, "NativeMessagingHosts"@))
}

/// The view of an optional string.
pub open spec fn opt_view(o: Option<&str>) -> Option<Seq<char>> {
    match o {
        None => None,
        Some(s) => Some(s@),
    }
}

/// The browser profile directories under `config_dir` on `platform`.
pub fn browser_dirs(config_dir: Option<&str>, platform: Platform) -> (r: Vec<String>)
    ensures
        string_views(r@) == spec_browser_dirs(opt_view(config_dir), platform),
{
    let mut r: Vec<String> = Vec::new();
    match config_dir {
        None => {
            assert(string_views(r@) =~= spec_browser_dirs(opt_view(config_dir), platform));
        },
        Some(config) => {
            let subs = browser_subdir_list(platform);
            let ghost target = spec_browser_dirs(opt_view(config_dir), platform);
            let mut i: usize = 0;
            while i < subs.len()
                invariant
                    i <= subs@.len(),
                    subs@.map_values(|s: &str| s@) == browser_subdirs(platform),
                    target == browser_subdirs(platform).map_values(
                        |s: Seq<char>| join_path(config@, s),
                    ),
                    string_views(r@) == target.take(i as int),
                decreases subs@.len() - i,
            {
                let d = join_path_str(config, subs[i]);
                let ghost old_r = r@;
                r.push(d);
                proof {
                    assert(browser_subdirs(platform)[i as int] == subs@[i as int]@);
                    assert(string_views(r@) =~= string_views(old_r).push(d@));
                    assert(target.take(i + 1) =~= target.take(i as int).push(target[i as int]));
                    assert(string_views(r@) =~= target.take(i + 1));
                }
                i = i + 1;
            }
            assert(target.take(subs@.len() as int) =~= target);
        },
    }
    r
}

/// The `NativeMessagingHosts` directories of the Chrome-family browsers
/// under `config_dir` on `platform`.
pub fn native_messaging_dirs(config_dir: Option<&str>, platform: Platform) -> (r: Vec<String>)
    ensures
        string_views(r@) == spec_native_messaging_dirs(opt_view(config_dir), platform),
{
    let bases = browser_dirs(config_dir, platform);
    let ghost target = spec_native_messaging_dirs(opt_view(config_dir), platform);
    let mut r: Vec<String> = Vec::new();
    let mut i: usize = 0;
    while i < bases.len()
        invariant
            i <= bases@.len(),
            string_views(bases@) == spec_browser_dirs(opt_view(config_dir), platform),
            target == string_views(bases@).map_values(
                |d: Seq<char>| join_path(d, "NativeMessagingHosts"@),
            ),
            string_views(r@) == target.take(i as int),
        decreases bases@.len() - i,
    {
        let d = join_path_str(bases[i].as_str(), "NativeMessagingHosts");
        let ghost old_r = r@;
        r.push(d);
        proof {
            assert(string_views(bases@)[i as int] == bases@[i as int]@);
            assert(string_views(r@) =~= string_views(old_r).push(d@));
            assert(target.take(i + 1) =~= target.take(i as int).push(target[i as int]));
            assert(string_views(r@) =~= target.take(i + 1));
        }
        i = i + 1;
    }
    assert(target.take(bases@.len() as int) =~= target);
    r
}


/// The directories searched on macOS are those of Google Chrome, Chrome
/// Beta, Chrome Canary, Chromium, Microsoft Edge and Brave, in that order,
/// under `~/Library/Application Support` (the configuration directory `c`).
pub proof fn lemma_macos_native_messaging_dirs(c: Seq<char>)
    ensures
        spec_native_messaging_dirs(Some(c), Platform::MacOs) == seq![
            join_path(join_path(c, "Google/Chrome"@), "NativeMessagingHosts"@),
            join_path(join_path(c, "Google/Chrome Beta"@), "NativeMessagingHosts"@),
            join_path(join_path(c, "Google/Chrome Canary"@), "NativeMessagingHosts"@),
            join_path(join_path(c, "Chromium"@), "NativeMessagingHosts"@),
            join_path(join_path(c, "Microsoft Edge"@), "NativeMessagingHosts"@),
            join_path(join_path(c, "BraveSoftware/Brave-Browser"@), "NativeMessagingHosts"@),
        ],
{
    assert(spec_native_messaging_dirs(Some(c), Platform::MacOs) =~= seq![
        join_path(join_path(c, "Google/Chrome"@), "NativeMessagingHosts"@),
        join_path(join_path(c, "Google/Chrome Beta"@), "NativeMessagingHosts"@),
        join_path(join_path(c, "Google/Chrome Canary"@), "NativeMessagingHosts"@),
        join_path(join_path(c, "Chromium"@), "NativeMessagingHosts"@),
        join_path(join_path(c, "Microsoft Edge"@), "NativeMessagingHosts"@),
        join_path(join_path(c, "BraveSoftware/Brave-Browser"@), "NativeMessagingHosts"@),
    ]);
}

/// The directories searched on other Unix systems are those of Google
/// Chrome, Chromium, Microsoft Edge and Brave, in that order, under the
/// configuration directory `c` (`~/.config`); elsewhere, and without a
/// configuration directory, none is searched.
pub proof fn lemma_unix_native_messaging_dirs(c: Seq<char>, p: Platform)
    ensures
        spec_native_messaging_dirs(Some(c), Platform::OtherUnix) == seq![
            join_path(join_path(c, "google-chrome"@), "NativeMessagingHosts"@),
            join_path(join_path(c, "chromium"@), "NativeMessagingHosts"@),
            join_path(join_path(c, "microsoft-edge"@), "NativeMessagingHosts"@),
            join_path(join_path(c, "BraveSoftware/Brave-Browser"@), "NativeMessagingHosts"@),
        ],
        spec_native_messaging_dirs(Some(c), Platform::Other).len() == 0,
        spec_native_messaging_dirs(None, p).len() == 0,
{
    assert(spec_native_messaging_dirs(Some(c), Platform::OtherUnix) =~= seq![
        join_path(join_path(c, "google-chrome"@), "NativeMessagingHosts"@),
        join_path(join_path(c, "chromium"@), "NativeMessagingHosts"@),
        join_path(join_path(c, "microsoft-edge"@), "NativeMessagingHosts"@),
        join_path(join_path(c, "BraveSoftware/Brave-Browser"@), "NativeMessagingHosts"@),
    ]);
}

/// The file name of the host manifest: the host name with `.json`.
pub open spec fn manifest_file_name() -> Seq<char> {
    HOST_NAME@ + ".json"@
}

/// The host manifest's path inside a `NativeMessagingHosts` directory.
pub fn host_manifest_file(dir: &str) -> (r: String)
    ensures
        r@ == join_path(dir@, manifest_file_name()),
{
    let mut name = String::from_str(HOST_NAME);
    name.append(".json");
    join_path_str(dir, name.as_str())
}

/// The views of (path, flag) pairs.
pub open spec fn flagged_views(c: Seq<(String, bool)>) -> Seq<(Seq<char>, bool)> {
    c.map_values(|p: (String, bool)| (p.0@, p.1))
}

/// The first path whose flag is set, searching from the front.
pub open spec fn first_present(c: Seq<(Seq<char>, bool)>) -> Option<Seq<char>>
    decreases c.len(),
{
    if c.len() == 0 {
        None
    } else {
        match first_present(c.drop_last()) {
            Some(p) => Some(p),
            None => if c.last().1 {
                Some(c.last().0)
            } else {
                None
            },
        }
    }
}

/// The manifest path that the status report shows: the first candidate
/// whose file is present, else the first candidate, else none.
pub open spec fn manifest_choice(c: Seq<(Seq<char>, bool)>) -> Option<Seq<char>> {
    match first_present(c) {
        Some(p) => Some(p),
        None => if c.len() > 0 {
            Some(c[0].0)
        } else {
            None
        },
    }
}

/// The view of an optional string.
pub open spec fn opt_string_view(o: Option<String>) -> Option<Seq<char>> {
    match o {
        Some(s) => Some(s@),
        None => None,
    }
}

proof fn lemma_first_present_none(c: Seq<(Seq<char>, bool)>)
    requires
        forall|j: int| 0 <= j < c.len() ==> !(#[trigger] c[j]).1,
    ensures
        first_present(c) == None::<Seq<char>>,
    decreases c.len(),
{
    if c.len() > 0 {
        let init = c.drop_last();
        assert forall|j: int| 0 <= j < init.len() implies !(#[trigger] init[j]).1 by {
            assert(init[j] == c[j]);
        }
        lemma_first_present_none(init);
        assert(!c[c.len() - 1].1);
    }
}

proof fn lemma_first_present_extends(c: Seq<(Seq<char>, bool)>, k: int)
    requires
        0 <= k <= c.len(),
        first_present(c.take(k)) is Some,
    ensures
        first_present(c) == first_present(c.take(k)),
    decreases c.len() - k,
{
    if k == c.len() {
        assert(c.take(k) =~= c);
    } else {
        assert(c.take(k + 1).drop_last() =~= c.take(k));
        assert(first_present(c.take(k + 1)) == first_present(c.take(k)));
        lemma_first_present_extends(c, k + 1);
    }
}

/// The manifest path that the status report shows: the first candidate
/// whose file is present, else the first candidate, else none.
/// `candidates` pairs each manifest path, in search order, with whether
/// the file is present.
pub fn host_manifest_path_for_chrome(candidates: &[(String, bool)]) -> (r: Option<String>)
    ensures
        opt_string_view(r) == manifest_choice(flagged_views(candidates@)),
{
    let ghost c = flagged_views(candidates@);
    let mut i: usize = 0;
    while i < candidates.len()
        invariant
            i <= candidates@.len(),
            c == flagged_views(candidates@),
            forall|j: int| 0 <= j < i ==> !(#[trigger] c[j]).1,
        decreases candidates@.len() - i,
    {
        if candidates[i].1 {
            proof {
                let t = c.take(i + 1);
                assert(t.drop_last() =~= c.take(i as int));
                assert forall|j: int| 0 <= j < i implies !(#[trigger] c.take(i as int)[j]).1 by {
                    assert(c.take(i as int)[j] == c[j]);
                }
                lemma_first_present_none(c.take(i as int));
                assert(t.last() == c[i as int]);
                assert(c[i as int] == (candidates@[i as int].0@, candidates@[i as int].1));
                lemma_first_present_extends(c, i + 1);
            }
            return Some(candidates[i].0.clone());
        }
        proof {
            assert(c[i as int] == (candidates@[i as int].0@, candidates@[i as int].1));
        }
        i = i + 1;
    }
    proof {
        lemma_first_present_none(c);
    }
    if candidates.len() > 0 {
        assert(c[0] == (candidates@[0].0@, candidates@[0].1));
        Some(candidates[0].0.clone())
    } else {
        None
    }
}

} // verus!
