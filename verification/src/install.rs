//! What `agent-browser connect --install` writes: the launcher script that
//! Chrome executes, the host manifest, and the manifest files' locations.

use vstd::prelude::*;
use crate::text::{join_path, join_path_str};
use crate::json::{json_quote, json_string};
use crate::connect::{HOST_NAME, EXTENSION_ID, flagged_views, manifest_file_name, host_manifest_file, first_present, manifest_choice};

verus! {

/// The `description` field of the host manifest.
pub const HOST_DESCRIPTION: &'static str = "agent-browser connect — native messaging host";

/// The error when no browser's `NativeMessagingHosts` directory can be used.
pub const NO_HOSTS_DIR_ERROR: &'static str = "no Chrome/Chromium NativeMessagingHosts directory found";

/// `~/.agent-browser`, the directory of the launcher, the log and the relay URL.
pub open spec fn spec_agent_browser_dir(home: Seq<char>) -> Seq<char> {
    join_path(home, ".agent-browser"@)
}

/// `~/.agent-browser` for the home directory `home`.
pub fn agent_browser_dir(home: &str) -> (r: String)
    ensures
        r@ == spec_agent_browser_dir(home@),
{
    join_path_str(home, ".agent-browser")
}

/// The launcher script's path, `~/.agent-browser/nm-host.sh`.
pub open spec fn spec_launcher_path(home: Seq<char>) -> Seq<char> {
    join_path(spec_agent_browser_dir(home), "nm-host.sh"@)
}

/// The launcher script's path for the home directory `home`.
pub fn launcher_path(home: &str) -> (r: String)
    ensures
        r@ == spec_launcher_path(home@),
{
    let dir = agent_browser_dir(home);
    join_path_str(dir.as_str(), "nm-host.sh")
}

/// The launcher script: it runs the executable `exe` in host mode and
/// passes on Chrome's arguments.
pub open spec fn spec_launcher_script(exe: Seq<char>) -> Seq<char> {
    "#!/bin/sh\n# agent-browser native-messaging host launcher (auto-generated)\nexec \""@ + exe
        + "\" __nm-host \"$@\"\n"@
}

/// The launcher script for the executable at `exe`.
pub fn launcher_script(exe: &str) -> (r: String)
    ensures
        r@ == spec_launcher_script(exe@),
{
    let mut r = String::from_str(
        "#!/bin/sh\n# agent-browser native-messaging host launcher (auto-generated)\nexec \"",
    );
    r.append(exe);
    r.append("\" __nm-host \"$@\"\n");
    r
}

/// The one origin allowed to reach the host: the extension's origin.
pub open spec fn allowed_origin() -> Seq<char> {
    "chrome-extension://"@ + EXTENSION_ID@ + "/"@
}

/// The host manifest, pretty-printed JSON with its keys in order, for a
/// launcher at `path`.
pub open spec fn spec_host_manifest_json(path: Seq<char>) -> Seq<char> {
    "{\n  \"allowed_origins\": [\n    "@ + json_quote(allowed_origin()) + "\n  ],\n  \"description\": "@
        + json_quote(HOST_DESCRIPTION@) + ",\n  \"name\": "@ + json_quote(HOST_NAME@)
        + ",\n  \"path\": "@ + json_quote(path) + ",\n  \"type\": "@ + json_quote("stdio"@)
        + "\n}"@
}

/// The host manifest for a launcher at `launcher_path`.
pub fn host_manifest_json(launcher_path: &str) -> (r: String)
    ensures
        r@ == spec_host_manifest_json(launcher_path@),
{
    let mut origin = String::from_str("chrome-extension://");
    origin.append(EXTENSION_ID);
    origin.append("/");
    let mut r = String::from_str("{\n  \"allowed_origins\": [\n    ");
    r.append(json_string(origin.as_str()).as_str());
    r.append("\n  ],\n  \"description\": ");
    r.append(json_string(HOST_DESCRIPTION).as_str());
    r.append(",\n  \"name\": ");
    r.append(json_string(HOST_NAME).as_str());
    r.append(",\n  \"path\": ");
    r.append(json_string(launcher_path).as_str());
    r.append(",\n  \"type\": ");
    r.append(json_string("stdio").as_str());
    r.append("\n}");
    r
}

/// The manifest files to write: one in each `NativeMessagingHosts`
/// directory whose browser directory is present, in order.
pub open spec fn install_paths(dirs: Seq<(Seq<char>, bool)>) -> Seq<Seq<char>>
    decreases dirs.len(),
{
    if dirs.len() == 0 {
        Seq::empty()
    } else {
        let rest = install_paths(dirs.drop_last());
        if dirs.last().1 {
            rest.push(join_path(dirs.last().0, manifest_file_name()))
        } else {
            rest
        }
    }
}

/// The manifest files to write, given each `NativeMessagingHosts`
/// directory paired with whether its browser directory is present; an
/// error when there is none.
pub fn install_manifest_paths(dirs: &[(String, bool)]) -> (r: Result<Vec<String>, String>)
    ensures
        match r {
            Ok(paths) => {
                &&& paths@.map_values(|s: String| s@) == install_paths(flagged_views(dirs@))
                &&& paths@.len() > 0
            },
            Err(e) => {
                &&& install_paths(flagged_views(dirs@)).len() == 0
                &&& e@ == NO_HOSTS_DIR_ERROR@
            },
        },
{
    let ghost views = flagged_views(dirs@);
    let mut out: Vec<String> = Vec::new();
    let mut i: usize = 0;
    while i < dirs.len()
        invariant
            i <= dirs@.len(),
            views == flagged_views(dirs@),
            out@.map_values(|s: String| s@) == install_paths(views.take(i as int)),
        decreases dirs@.len() - i,
    {
        proof {
            assert(views.take(i + 1).drop_last() =~= views.take(i as int));
            assert(views[i as int] == (dirs@[i as int].0@, dirs@[i as int].1));
        }
        if dirs[i].1 {
            let p = host_manifest_file(dirs[i].0.as_str());
            let ghost old_out = out@;
            out.push(p);
            assert(out@.map_values(|s: String| s@) =~= old_out.map_values(|s: String| s@).push(
                p@,
            ));
        }
        i = i + 1;
    }
    assert(views.take(dirs@.len() as int) =~= views);
    if out.len() == 0 {
        Err(String::from_str(NO_HOSTS_DIR_ERROR))
    } else {
        Ok(out)
    }
}


/// Whether `path` is the manifest file of one of the directories `dirs`
/// whose browser is present.
pub open spec fn is_present_manifest(dirs: Seq<(Seq<char>, bool)>, path: Seq<char>) -> bool {
    exists|i: int|
        0 <= i < dirs.len() && (#[trigger] dirs[i]).1 && path == join_path(
            dirs[i].0,
            manifest_file_name(),
        )
}

/// Every manifest that installing writes is one that the status report and
/// uninstalling look for: the manifest file of one of the searched
/// `NativeMessagingHosts` directories whose browser is present.
pub proof fn lemma_installed_manifests_are_searched(dirs: Seq<(Seq<char>, bool)>)
    ensures
        forall|k: int|
            0 <= k < install_paths(dirs).len() ==> is_present_manifest(
                dirs,
                #[trigger] install_paths(dirs)[k],
            ),
    decreases dirs.len(),
{
    if dirs.len() > 0 {
        let init = dirs.drop_last();
        lemma_installed_manifests_are_searched(init);
        assert forall|k: int| 0 <= k < install_paths(dirs).len() implies is_present_manifest(
            dirs,
            #[trigger] install_paths(dirs)[k],
        ) by {
            if k < install_paths(init).len() {
                assert(install_paths(dirs)[k] == install_paths(init)[k]);
                assert(is_present_manifest(init, install_paths(init)[k]));
                let i = choose|i: int|
                    0 <= i < init.len() && (#[trigger] init[i]).1 && install_paths(init)[k]
                        == join_path(init[i].0, manifest_file_name());
                assert(dirs[i] == init[i]);
            } else {
                let last = dirs.len() - 1;
                assert(dirs[last] == dirs.last());
                assert(install_paths(dirs)[k] == join_path(dirs[last].0, manifest_file_name()));
            }
        }
    }
}

/// Whether a `NativeMessagingHosts` directory's browser is present.
pub open spec fn browser_present() -> spec_fn((Seq<char>, bool)) -> bool {
    |d: (Seq<char>, bool)| d.1
}

/// The manifest file inside a `NativeMessagingHosts` directory.
pub open spec fn manifest_in() -> spec_fn((Seq<char>, bool)) -> Seq<char> {
    |d: (Seq<char>, bool)| join_path(d.0, manifest_file_name())
}

/// Installing writes a manifest into every present browser's directory,
/// in search order, and into no other: the written paths are the
/// manifest files of exactly the directories whose browser is present, so
/// there are as many as there are present browsers, and each present
/// browser's manifest is among them.
pub proof fn lemma_install_paths_every_present_browser(dirs: Seq<(Seq<char>, bool)>)
    ensures
        install_paths(dirs) == dirs.filter(browser_present()).map_values(manifest_in()),
        install_paths(dirs).len() == dirs.filter(browser_present()).len(),
        forall|i: int|
            0 <= i < dirs.len() && dirs[i].1 ==> install_paths(dirs).contains(
                join_path(#[trigger] dirs[i].0, manifest_file_name()),
            ),
    decreases dirs.len(),
{
    reveal(Seq::filter);
    if dirs.len() > 0 {
        let init = dirs.drop_last();
        lemma_install_paths_every_present_browser(init);
        let f = init.filter(browser_present());
        if dirs.last().1 {
            assert(dirs.filter(browser_present()) == f.push(dirs.last()));
            assert(f.push(dirs.last()).map_values(manifest_in()) =~= f.map_values(
                manifest_in(),
            ).push(join_path(dirs.last().0, manifest_file_name())));
        } else {
            assert(dirs.filter(browser_present()) == f);
        }
    }
    assert forall|i: int| 0 <= i < dirs.len() && dirs[i].1 implies install_paths(dirs).contains(
        join_path(#[trigger] dirs[i].0, manifest_file_name()),
    ) by {
        let pred = browser_present();
        assert(pred(dirs[i]));
        dirs.lemma_filter_contains(pred, i);
        let fl = dirs.filter(pred);
        let j = choose|j: int| 0 <= j < fl.len() && fl[j] == dirs[i];
        assert(fl.map_values(manifest_in())[j] == join_path(dirs[i].0, manifest_file_name()));
    }
}

/// The status report's candidates right after installing into `dirs`: the
/// manifest file of each `NativeMessagingHosts` directory, present exactly
/// when its browser directory is (install wrote it there; a manifest cannot
/// exist under a browser directory that is absent).
pub open spec fn candidates_after_install(dirs: Seq<(Seq<char>, bool)>) -> Seq<(Seq<char>, bool)> {
    dirs.map_values(|p: (Seq<char>, bool)| (join_path(p.0, manifest_file_name()), p.1))
}

proof fn lemma_first_present_is_first_installed(dirs: Seq<(Seq<char>, bool)>)
    ensures
        first_present(candidates_after_install(dirs)) == (if install_paths(dirs).len() > 0 {
            Some(install_paths(dirs)[0])
        } else {
            None
        }),
    decreases dirs.len(),
{
    if dirs.len() > 0 {
        let init = dirs.drop_last();
        lemma_first_present_is_first_installed(init);
        let c = candidates_after_install(dirs);
        assert(c.drop_last() =~= candidates_after_install(init));
        assert(c.last() == (join_path(dirs.last().0, manifest_file_name()), dirs.last().1));
        let rest = install_paths(init);
        if rest.len() > 0 && dirs.last().1 {
            assert(install_paths(dirs)[0] == rest[0]);
        }
    }
}

/// A status report right after a successful install shows the first
/// manifest that was installed: when installing into `dirs` writes at least
/// one manifest, the status report's choice among the candidates as they
/// then stand is the first written path (and that file is present, so the
/// report says it is installed).
pub proof fn lemma_status_after_install(dirs: Seq<(Seq<char>, bool)>)
    requires
        install_paths(dirs).len() > 0,
    ensures
        manifest_choice(candidates_after_install(dirs)) == Some(install_paths(dirs)[0]),
        first_present(candidates_after_install(dirs)) == Some(install_paths(dirs)[0]),
{
    lemma_first_present_is_first_installed(dirs);
}

} // verus!
