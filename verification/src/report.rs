//! What `agent-browser connect` prints: one-line reports, and the install
//! and status messages, each either as JSON or as text for people.

use vstd::prelude::*;
use crate::text::{decimal, decimal_string};
use crate::json::{json_quote, json_string, json_bool, json_bool_str, json_string_array, json_string_array_string, string_views};
use crate::connect::{HOST_NAME, EXTENSION_ID};

verus! {

/// A report ready to be printed: the text (with its final newline), whether
/// it goes to standard error, and whether the process then exits with
/// failure.
pub struct Report {
    pub text: String,
    pub to_stderr: bool,
    pub failed: bool,
}

/// The JSON form of a report: `error` is `null` on success and the
/// message on failure (keys in order, compact).
pub open spec fn report_json(ok: bool, msg: Seq<char>) -> Seq<char> {
    "{\"error\":"@ + (if ok {
        "null"@
    } else {
        json_quote(msg)
    }) + ",\"message\":"@ + json_quote(msg) + ",\"success\":"@ + json_bool(ok) + "}\n"@
}

/// The printed text of a report.
pub open spec fn report_text(json: bool, ok: bool, msg: Seq<char>) -> Seq<char> {
    if json {
        report_json(ok, msg)
    } else if ok {
        "✓ "@ + msg + "\n"@
    } else {
        "✗ "@ + msg + "\n"@
    }
}

/// The report of an outcome `ok` with message `msg`: JSON on standard
/// output when `json` is set, otherwise a marked line, on standard error
/// for a failure; a failure ends the process with a failing status.
pub fn report(json: bool, ok: bool, msg: &str) -> (r: Report)
    ensures
        r.text@ == report_text(json, ok, msg@),
        r.to_stderr == (!json && !ok),
        r.failed == !ok,
{
    let mut text: String;
    if json {
        text = String::from_str("{\"error\":");
        if ok {
            text.append("null");
        } else {
            text.append(json_string(msg).as_str());
        }
        text.append(",\"message\":");
        text.append(json_string(msg).as_str());
        text.append(",\"success\":");
        text.append(json_bool_str(ok));
        text.append("}\n");
    } else {
        if ok {
            text = String::from_str("✓ ");
        } else {
            text = String::from_str("✗ ");
        }
        text.append(msg);
        text.append("\n");
    }
    Report { text, to_stderr: !json && !ok, failed: !ok }
}

/// The message after uninstalling: how many manifests were removed.
pub open spec fn spec_uninstall_message(removed: nat) -> Seq<char> {
    "removed "@ + decimal(removed) + " native-host manifest(s)"@
}

/// The message after `removed` manifests were removed.
pub fn uninstall_message(removed: u64) -> (r: String)
    ensures
        r@ == spec_uninstall_message(removed as nat),
{
    let mut r = String::from_str("removed ");
    r.append(decimal_string(removed).as_str());
    r.append(" native-host manifest(s)");
    r
}

/// The message when installing failed with `error`.
pub fn install_failure_message(error: &str) -> (r: String)
    ensures
        r@ == "install failed: "@ + error@,
{
    let mut r = String::from_str("install failed: ");
    r.append(error);
    r
}

/// One indented line per installed path.
pub open spec fn indented_lines(paths: Seq<Seq<char>>) -> Seq<char>
    decreases paths.len(),
{
    if paths.len() == 0 {
        Seq::empty()
    } else {
        indented_lines(paths.drop_last()) + "  "@ + paths.last() + "\n"@
    }
}

/// What is printed after a successful install of the manifests `paths`.
pub open spec fn spec_install_success_output(json: bool, paths: Seq<Seq<char>>) -> Seq<char> {
    if json {
        "{\"data\":{\"extensionId\":"@ + json_quote(EXTENSION_ID@) + ",\"installed\":"@
            + json_string_array(paths) + "},\"success\":true}\n"@
    } else {
        "✓ native-messaging host installed:\n"@ + indented_lines(paths)
            + "\nNext: load the ab-connect extension in Chrome (chrome://extensions →\nDeveloper mode → Load unpacked → extensions/ab-connect), then this host\nis reachable with no token and no per-use confirmation.\n"@
    }
}

/// What is printed after the manifests `paths` were installed.
pub fn install_success_output(json: bool, paths: &Vec<String>) -> (r: String)
    ensures
        r@ == spec_install_success_output(json, string_views(paths@)),
{
    let ghost views = string_views(paths@);
    if json {
        let mut r = String::from_str("{\"data\":{\"extensionId\":");
        r.append(json_string(EXTENSION_ID).as_str());
        r.append(",\"installed\":");
        r.append(json_string_array_string(paths).as_str());
        r.append("},\"success\":true}\n");
        r
    } else {
        let mut r = String::from_str("✓ native-messaging host installed:\n");
        let ghost head = r@;
        let mut i: usize = 0;
        while i < paths.len()
            invariant
                i <= paths@.len(),
                views == string_views(paths@),
                r@ == head + indented_lines(views.take(i as int)),
            decreases paths@.len() - i,
        {
            r.append("  ");
            r.append(paths[i].as_str());
            r.append("\n");
            proof {
                assert(views.take(i + 1).drop_last() =~= views.take(i as int));
                assert(views[i as int] == paths@[i as int]@);
            }
            i = i + 1;
        }
        assert(views.take(paths@.len() as int) =~= views);
        r.append(
            "\nNext: load the ab-connect extension in Chrome (chrome://extensions →\nDeveloper mode → Load unpacked → extensions/ab-connect), then this host\nis reachable with no token and no per-use confirmation.\n",
        );
        r
    }
}

/// What the status report prints, given the manifest path shown (if any)
/// and whether that manifest is installed.
pub open spec fn spec_status_output(json: bool, manifest: Option<Seq<char>>, installed: bool) -> Seq<
    char,
> {
    if json {
        "{\"data\":{\"extensionId\":"@ + json_quote(EXTENSION_ID@) + ",\"installed\":"@ + json_bool(
            installed,
        ) + ",\"manifest\":"@ + (match manifest {
            Some(p) => json_quote(p),
            None => "null"@,
        }) + "},\"success\":true}\n"@
    } else if installed {
        "✓ native-messaging host installed ("@ + HOST_NAME@
            + ").\n  Load the ab-connect extension and it connects automatically.\n"@
    } else {
        "✗ not installed. Run: agent-browser connect --install\n"@
    }
}


/// In text form the status depends on whether the manifest is installed
/// alone, never on which manifest path is shown: not installed, it is the
/// hint to install; installed, the confirmation.
pub proof fn lemma_status_text_depends_on_installed(m1: Option<Seq<char>>, m2: Option<Seq<char>>, installed: bool)
    ensures
        spec_status_output(false, m1, installed) == spec_status_output(false, m2, installed),
        !installed ==> spec_status_output(false, m1, installed)
            == "✗ not installed. Run: agent-browser connect --install\n"@,
        installed ==> spec_status_output(false, m1, installed) == "✓ native-messaging host installed ("@
            + HOST_NAME@ + ").\n  Load the ab-connect extension and it connects automatically.\n"@,
{
}

/// In JSON form the `manifest` field shows the manifest path whenever there
/// is one, installed or not, and `null` only when there is none: the output
/// ends with that field and the closing of the object.
pub proof fn lemma_status_json_manifest_field(m: Option<Seq<char>>, installed: bool)
    ensures
        ({
            let out = spec_status_output(true, m, installed);
            let tail = ",\"manifest\":"@ + (match m {
                Some(p) => json_quote(p),
                None => "null"@,
            }) + "},\"success\":true}\n"@;
            &&& out.len() >= tail.len()
            &&& out.subrange(out.len() - tail.len(), out.len() as int) == tail
        }),
{
    let field = match m {
        Some(p) => json_quote(p),
        None => "null"@,
    };
    let head = "{\"data\":{\"extensionId\":"@ + json_quote(EXTENSION_ID@) + ",\"installed\":"@
        + json_bool(installed);
    let tail = ",\"manifest\":"@ + field + "},\"success\":true}\n"@;
    let out = spec_status_output(true, m, installed);
    assert(out =~= head + tail);
    assert(out.subrange(out.len() - tail.len(), out.len() as int) =~= tail);
}

/// The status report for the manifest path `manifest` and whether it is
/// `installed`.
pub fn status_output(json: bool, manifest: Option<&str>, installed: bool) -> (r: String)
    ensures
        r@ == spec_status_output(
            json,
            match manifest {
                Some(p) => Some(p@),
                None => None,
            },
            installed,
        ),
{
    if json {
        let mut r = String::from_str("{\"data\":{\"extensionId\":");
        r.append(json_string(EXTENSION_ID).as_str());
        r.append(",\"installed\":");
        r.append(json_bool_str(installed));
        r.append(",\"manifest\":");
        match manifest {
            Some(p) => r.append(json_string(p).as_str()),
            None => r.append("null"),
        }
        r.append("},\"success\":true}\n");
        r
    } else if installed {
        let mut r = String::from_str("✓ native-messaging host installed (");
        r.append(HOST_NAME);
        r.append(").\n  Load the ab-connect extension and it connects automatically.\n");
        r
    } else {
        String::from_str("✗ not installed. Run: agent-browser connect --install\n")
    }
}

} // verus!
