//! Where Windows records the installed WebView2 runtime.

use crate::text::{
    concat2, concat3, eq_ignore_ascii_case, join, joined, pieces, same_ignoring_case, split_char,
    split_whitespace, views, words,
};
use vstd::prelude::*;

verus! {

pub const WEBVIEW2_RUNTIME_CLIENT_GUID: &'static str = "{F3017226-FE2A-4295-8BDF-00C3A9A7E4C5}";

/// The registry keys that may hold the version of the runtime, in the order in which they
/// are looked up.
pub fn webview2_runtime_registry_keys() -> (keys: Vec<String>)
    ensures
        keys@.len() == 3,
        keys@[0]@ == "HKLM\\SOFTWARE\\WOW6432Node\\Microsoft\\EdgeUpdate\\Clients\\"@
            + WEBVIEW2_RUNTIME_CLIENT_GUID@,
        keys@[1]@ == "HKLM\\SOFTWARE\\Microsoft\\EdgeUpdate\\Clients\\"@
            + WEBVIEW2_RUNTIME_CLIENT_GUID@,
        keys@[2]@ == "HKCU\\Software\\Microsoft\\EdgeUpdate\\Clients\\"@
            + WEBVIEW2_RUNTIME_CLIENT_GUID@,
{
    let mut keys: Vec<String> = Vec::new();
    keys.push(
        concat2(
            "HKLM\\SOFTWARE\\WOW6432Node\\Microsoft\\EdgeUpdate\\Clients\\",
            WEBVIEW2_RUNTIME_CLIENT_GUID,
        ),
    );
    keys.push(
        concat2(
            "HKLM\\SOFTWARE\\Microsoft\\EdgeUpdate\\Clients\\",
            WEBVIEW2_RUNTIME_CLIENT_GUID,
        ),
    );
    keys.push(
        concat2(
            "HKCU\\Software\\Microsoft\\EdgeUpdate\\Clients\\",
            WEBVIEW2_RUNTIME_CLIENT_GUID,
        ),
    );
    keys
}

/// The version in a line of the registry tool's output: the words after `pv` and `REG_SZ`.
pub open spec fn version_in_line(line: Seq<char>) -> Option<Seq<char>> {
    let fields = words(line);
    if fields.len() >= 2 && same_ignoring_case(fields[0], "pv"@) && same_ignoring_case(
        fields[1],
        "REG_SZ"@,
    ) && joined(fields.skip(2), " "@).len() > 0 {
        Some(joined(fields.skip(2), " "@))
    } else {
        None
    }
}

/// The version in the first of the lines that has one.
pub open spec fn first_version(lines: Seq<Seq<char>>) -> Option<Seq<char>>
    decreases lines.len(),
{
    if lines.len() == 0 {
        None
    } else if version_in_line(lines[0]) is Some {
        version_in_line(lines[0])
    } else {
        first_version(lines.skip(1))
    }
}

fn parse_line(line: &str) -> (version: Option<String>)
    ensures
        match version {
            Some(text) => version_in_line(line@) == Some(text@),
            None => version_in_line(line@) is None,
        },
{
    let fields = split_whitespace(line);
    assert(views(fields@).len() == fields@.len());
    if fields.len() < 2 {
        return None;
    }
    assert(views(fields@)[0] == fields@[0]@ && views(fields@)[1] == fields@[1]@);
    if !eq_ignore_ascii_case(fields[0].as_str(), "pv") || !eq_ignore_ascii_case(
        fields[1].as_str(),
        "REG_SZ",
    ) {
        return None;
    }
    let mut rest: Vec<String> = Vec::new();
    let mut i: usize = 2;
    while i < fields.len()
        invariant
            2 <= i <= fields@.len(),
            rest@ == fields@.subrange(2, i as int),
        decreases fields@.len() - i,
    {
        rest.push(fields[i].clone());
        i += 1;
        assert(fields@.subrange(2, i as int) =~= fields@.subrange(2, i - 1).push(fields@[i - 1]));
    }
    assert(views(rest@) =~= views(fields@).skip(2));
    let value = join(&rest, " ");
    if value.as_str().is_empty() {
        None
    } else {
        Some(value)
    }
}

/// The version in the output of a registry query.
pub fn parse_reg_pv_output(output: &str) -> (version: Option<String>)
    ensures
        match version {
            Some(text) => first_version(pieces(output@, '\n')) == Some(text@),
            None => first_version(pieces(output@, '\n')) is None,
        },
{
    let lines = split_char(output, '\n');
    let mut i: usize = 0;
    assert(views(lines@).skip(0) =~= views(lines@));
    while i < lines.len()
        invariant
            i <= lines@.len(),
            views(lines@) == pieces(output@, '\n'),
            first_version(views(lines@).skip(i as int)) == first_version(views(lines@)),
        decreases lines@.len() - i,
    {
        let version = parse_line(lines[i].as_str());
        assert(views(lines@).skip(i as int)[0] == lines@[i as int]@);
        if version.is_some() {
            return version;
        }
        assert(views(lines@).skip(i as int).skip(1) =~= views(lines@).skip(i + 1));
        i += 1;
    }
    None
}

/// One key with its version, or with the word that there is none.
pub open spec fn key_report(key: Seq<char>, version: Option<Seq<char>>) -> Seq<char> {
    key + "="@ + match version {
        Some(version) => version,
        None => "missing"@,
    }
}

/// A line of the runtime diagnostic for one key.
pub fn webview2_key_report(key: &str, version: Option<&str>) -> (line: String)
    ensures
        line@ == key_report(
            key@,
            match version {
                Some(version) => Some(version@),
                None => None,
            },
        ),
{
    match version {
        Some(version) => concat3(key, "=", version),
        None => concat3(key, "=", "missing"),
    }
}

/// The runtime diagnostic: the reports of all keys.
pub fn webview2_runtime_diagnostic(reports: &Vec<String>) -> (line: String)
    ensures
        line@ == "webview2_runtime_versions "@ + joined(views(reports@), "; "@),
{
    let all = join(reports, "; ");
    concat2("webview2_runtime_versions ", all.as_str())
}

/// The version of the runtime is what stands behind `pv` and `REG_SZ` in a line, whatever their
/// case; a line with other words in front, or with nothing behind them, has none.
pub proof fn law_version_stands_behind_its_name(line: Seq<char>, rest: Seq<Seq<char>>)
    ensures
        words(line) == seq!["pv"@, "REG_SZ"@] + rest && joined(rest, " "@).len() > 0
            ==> version_in_line(line) == Some(joined(rest, " "@)),
        version_in_line(line) matches Some(version) ==> {
            &&& words(line).len() >= 2
            &&& same_ignoring_case(words(line)[0], "pv"@)
            &&& same_ignoring_case(words(line)[1], "REG_SZ"@)
            &&& version.len() > 0
            &&& version == joined(words(line).skip(2), " "@)
        },
        words(line).len() >= 2 && same_ignoring_case(words(line)[0], "pv"@) && same_ignoring_case(
            words(line)[1],
            "REG_SZ"@,
        ) && joined(words(line).skip(2), " "@).len() > 0 ==> version_in_line(line) is Some,
{
    if words(line) == seq!["pv"@, "REG_SZ"@] + rest {
        assert(words(line).skip(2) =~= rest);
    }
}

/// The first line with a version decides.
pub proof fn law_first_version_decides(lines: Seq<Seq<char>>, i: int)
    requires
        0 <= i < lines.len(),
        forall|k: int| 0 <= k < i ==> version_in_line(#[trigger] lines[k]) is None,
    ensures
        version_in_line(lines[i]) is Some ==> first_version(lines) == version_in_line(lines[i]),
        i == lines.len() - 1 && version_in_line(lines[i]) is None ==> first_version(lines) is None,
    decreases lines.len(),
{
    if i > 0 {
        assert(version_in_line(lines[0]) is None);
        let rest = lines.skip(1);
        assert forall|k: int| 0 <= k < i - 1 implies version_in_line(#[trigger] rest[k]) is None by {
            assert(rest[k] == lines[k + 1]);
        }
        assert(rest[i - 1] == lines[i]);
        law_first_version_decides(rest, i - 1);
    } else if lines.len() == 1 {
        assert(first_version(lines.skip(1)) is None);
    }
}

/// A key is reported with its version, or as missing.
pub proof fn law_keys_are_reported(key: Seq<char>, version: Seq<char>)
    ensures
        key_report(key, Some(version)) == key + "="@ + version,
        key_report(key, None) == key + "="@ + "missing"@,
{
}

} // verus!
