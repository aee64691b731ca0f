//! Media folders: a change must have been chosen with the native folder picker.

use crate::text::{ascii_lower, chars_of, concat2, has_prefix, starts_with, string_of, to_ascii_lowercase};
use vstd::prelude::*;

verus! {

/// Two paths each of which is the other or lies in it; `nested` tells whether its second
/// argument is its first or lies in it.
pub fn same_path<N: Fn(&str, &str) -> bool>(left: &str, right: &str, nested: &N) -> (r: bool)
    requires
        forall|a: &str, b: &str| call_requires(*nested, (a, b)),
    ensures
        r ==> call_ensures(*nested, (left, right), true) && call_ensures(
            *nested,
            (right, left),
            true,
        ),
        !r ==> call_ensures(*nested, (left, right), false) || call_ensures(
            *nested,
            (right, left),
            false,
        ),
{
    nested(left, right) && nested(right, left)
}

/// Whether two paths may be taken as the same.
pub open spec fn seen_same<N: Fn(&str, &str) -> bool>(nested: N, left: &str, right: &str) -> bool {
    call_ensures(nested, (left, right), true) && call_ensures(nested, (right, left), true)
}

/// Whether two paths may be taken as different.
pub open spec fn seen_different<N: Fn(&str, &str) -> bool>(
    nested: N,
    left: &str,
    right: &str,
) -> bool {
    call_ensures(nested, (left, right), false) || call_ensures(nested, (right, left), false)
}

/// Whether the folder that was chosen may be taken as another one.
pub open spec fn chosen_seen_same<N: Fn(&str, &str) -> bool>(
    nested: N,
    chosen: Seq<char>,
    path: &str,
) -> bool {
    exists|authorized: &str| authorized@ == chosen && #[trigger] seen_same(nested, authorized, path)
}

/// Whether the folder that was chosen may be taken as different from another one.
pub open spec fn chosen_seen_different<N: Fn(&str, &str) -> bool>(
    nested: N,
    chosen: Seq<char>,
    path: &str,
) -> bool {
    exists|authorized: &str|
        authorized@ == chosen && #[trigger] seen_different(nested, authorized, path)
}

/// Whether a change of the folder may be accepted.
pub open spec fn change_accepted<N: Fn(&str, &str) -> bool>(
    authorization: NativeMediaFolderAuthorization,
    nested: N,
    current: &str,
    requested: &str,
) -> bool {
    ||| seen_same(nested, current, requested)
    ||| authorization.pending is Some && chosen_seen_same(
        nested,
        authorization.pending->0@,
        requested,
    )
}

/// Whether a change of the folder may be refused.
pub open spec fn change_refused<N: Fn(&str, &str) -> bool>(
    authorization: NativeMediaFolderAuthorization,
    nested: N,
    current: &str,
    requested: &str,
) -> bool {
    &&& seen_different(nested, current, requested)
    &&& authorization.pending is None || chosen_seen_different(
        nested,
        authorization.pending->0@,
        requested,
    )
}

/// What saving a folder does to the authorization: it is used up where it was for that folder.
pub open spec fn committed<N: Fn(&str, &str) -> bool>(
    before: NativeMediaFolderAuthorization,
    after: NativeMediaFolderAuthorization,
    nested: N,
    path: &str,
) -> bool {
    match before.pending {
        None => after.pending is None,
        Some(chosen) => {
            ||| after.pending is None && chosen_seen_same(nested, chosen@, path)
            ||| after == before && chosen_seen_different(nested, chosen@, path)
        },
    }
}

/// The folder that was chosen with the native picker and not saved yet.
#[derive(Debug, PartialEq, Eq)]
pub struct NativeMediaFolderAuthorization {
    pub pending: Option<String>,
}

impl Default for NativeMediaFolderAuthorization {
    fn default() -> (r: Self)
        ensures
            r.pending is None,
    {
        NativeMediaFolderAuthorization { pending: None }
    }
}

impl NativeMediaFolderAuthorization {
    pub fn authorize(&mut self, path: String)
        ensures
            final(self).pending == Some(path),
    {
        self.pending = Some(path);
    }

    /// Accepts the current folder and the one that was chosen with the picker.
    pub fn validate_change<N: Fn(&str, &str) -> bool>(
        &self,
        current: &str,
        requested: &str,
        nested: &N,
    ) -> (res: Result<(), String>)
        requires
            forall|a: &str, b: &str| call_requires(*nested, (a, b)),
        ensures
            match res {
                Ok(_) => change_accepted(*self, *nested, current, requested),
                Err(message) => {
                    &&& message@
                        == "choose a new media folder with the native folder picker first"@
                    &&& change_refused(*self, *nested, current, requested)
                },
            },
    {
        if same_path(current, requested, nested) {
            return Ok(());
        }
        if let Some(pending) = &self.pending {
            let authorized = pending.as_str();
            if same_path(authorized, requested, nested) {
                assert(seen_same(*nested, authorized, requested));
                assert(chosen_seen_same(*nested, pending@, requested));
                return Ok(());
            }
            assert(seen_different(*nested, authorized, requested));
            assert(chosen_seen_different(*nested, pending@, requested));
        }
        Err("choose a new media folder with the native folder picker first".to_owned())
    }

    /// Uses the authorization up once its folder is saved.
    pub fn commit<N: Fn(&str, &str) -> bool>(&mut self, path: &str, nested: &N)
        requires
            forall|a: &str, b: &str| call_requires(*nested, (a, b)),
        ensures
            committed(*old(self), *final(self), *nested, path),
    {
        let used = match &self.pending {
            Some(pending) => {
                let authorized = pending.as_str();
                let same = same_path(authorized, path, nested);
                assert(same ==> seen_same(*nested, authorized, path));
                assert(!same ==> seen_different(*nested, authorized, path));
                assert(same ==> chosen_seen_same(*nested, pending@, path));
                assert(!same ==> chosen_seen_different(*nested, pending@, path));
                same
            },
            None => false,
        };
        if used {
            self.pending = None;
        }
    }
}

/// Without a choice, and after every folder that was chosen was saved, only the current folder
/// is accepted: a choice serves for one change.
pub proof fn law_choice_serves_once<N: Fn(&str, &str) -> bool>(
    chosen: NativeMediaFolderAuthorization,
    after: NativeMediaFolderAuthorization,
    nested: N,
    saved: &str,
    current: &str,
    requested: &str,
)
    requires
        committed(chosen, after, nested, saved),
        chosen.pending is Some ==> !chosen_seen_different(nested, chosen.pending->0@, saved),
    ensures
        after.pending is None,
        change_accepted(after, nested, current, requested) == seen_same(nested, current, requested),
        change_refused(after, nested, current, requested) == seen_different(
            nested,
            current,
            requested,
        ),
{
}

/// A folder that was chosen is accepted, and stays so while another folder is saved.
pub proof fn law_choice_waits_for_its_folder<N: Fn(&str, &str) -> bool>(
    chosen: NativeMediaFolderAuthorization,
    after: NativeMediaFolderAuthorization,
    nested: N,
    saved: &str,
    current: &str,
    requested: &str,
)
    requires
        chosen.pending is Some,
        committed(chosen, after, nested, saved),
        !chosen_seen_same(nested, chosen.pending->0@, saved),
        !chosen_seen_different(nested, chosen.pending->0@, requested),
    ensures
        after == chosen,
        !change_refused(chosen, nested, current, requested),
        !change_refused(after, nested, current, requested),
{
}

/// The form of a path that is shown: without the verbatim prefix of Windows.
pub open spec fn shown_path(path: Seq<char>) -> Seq<char> {
    if has_prefix(ascii_lower(path), "\\\\?\\unc\\"@) {
        "\\\\"@ + path.skip(8)
    } else if has_prefix(ascii_lower(path), "\\\\?\\"@) {
        path.skip(4)
    } else {
        path
    }
}

pub fn display_media_folder_path(path: &str) -> (shown: String)
    ensures
        shown@ == shown_path(path@),
{
    proof {
        reveal_strlit("\\\\?\\unc\\");
        reveal_strlit("\\\\?\\");
    }
    let lowercase = to_ascii_lowercase(path);
    let chars = chars_of(path);
    if starts_with(lowercase.as_str(), "\\\\?\\unc\\") {
        let rest = string_of(&chars, 8, chars.len());
        assert(rest@ =~= path@.skip(8));
        concat2("\\\\", rest.as_str())
    } else if starts_with(lowercase.as_str(), "\\\\?\\") {
        let rest = string_of(&chars, 4, chars.len());
        assert(rest@ =~= path@.skip(4));
        rest
    } else {
        path.to_owned()
    }
}

/// A verbatim path is shown without its prefix, one of a share as a share; every other path is
/// shown as it is.
pub proof fn law_verbatim_prefixes_are_not_shown(path: Seq<char>, rest: Seq<char>)
    ensures
        shown_path("\\\\?\\UNC\\"@ + rest) == "\\\\"@ + rest,
        !has_prefix(ascii_lower(rest), "unc\\"@) ==> shown_path("\\\\?\\"@ + rest) == rest,
        !has_prefix(path, "\\\\?\\"@) ==> shown_path(path) == path,
{
    reveal_strlit("\\\\?\\UNC\\");
    reveal_strlit("\\\\?\\unc\\");
    reveal_strlit("\\\\?\\");
    reveal_strlit("\\\\");
    reveal_strlit("unc\\");
    let share = "\\\\?\\UNC\\"@ + rest;
    assert(ascii_lower(share).take(8) =~= "\\\\?\\unc\\"@);
    assert(share.skip(8) =~= rest);
    let long = "\\\\?\\"@ + rest;
    assert(long.skip(4) =~= rest);
    assert(ascii_lower(long).take(4) =~= "\\\\?\\"@);
    if has_prefix(ascii_lower(long), "\\\\?\\unc\\"@) {
        assert(ascii_lower(rest).take(4) =~= ascii_lower(long).take(8).skip(4));
        assert("\\\\?\\unc\\"@.skip(4) =~= "unc\\"@);
    }
    if !has_prefix(path, "\\\\?\\"@) && has_prefix(ascii_lower(path), "\\\\?\\"@) {
        assert forall|i: int| 0 <= i < 4 implies #[trigger] path[i] == "\\\\?\\"@[i] by {
            assert(ascii_lower(path).take(4)[i] == "\\\\?\\"@[i]);
        }
        assert(path.take(4) =~= "\\\\?\\"@);
    }
    if !has_prefix(path, "\\\\?\\"@) && has_prefix(ascii_lower(path), "\\\\?\\unc\\"@) {
        assert(ascii_lower(path).take(8).take(4) =~= ascii_lower(path).take(4));
        assert("\\\\?\\unc\\"@.take(4) =~= "\\\\?\\"@);
    }
}

/// Two folders are the same where each lies in the other, which their paths decide. A change of
/// the folder is accepted where nothing changes or where the folder is the one that was chosen,
/// and refused elsewhere; the choice is used up by saving that folder alone.
pub proof fn law_only_the_chosen_folder_is_accepted<N: Fn(&str, &str) -> bool>(
    before: NativeMediaFolderAuthorization,
    after: NativeMediaFolderAuthorization,
    nested: N,
    current: &str,
    requested: &str,
    chosen: &str,
)
    requires
        forall|a: &str, b: &str, c: &str, d: &str| #[trigger]
            call_ensures(nested, (a, b), true) && #[trigger] call_ensures(nested, (c, d), false)
                ==> a@ != c@ || b@ != d@,
    ensures
        call_ensures(nested, (current, requested), true) && call_ensures(
            nested,
            (requested, current),
            true,
        ) ==> change_accepted(before, nested, current, requested) && !change_refused(
            before,
            nested,
            current,
            requested,
        ),
        call_ensures(nested, (current, requested), false) && before.pending is None
            ==> change_refused(before, nested, current, requested) && !change_accepted(
            before,
            nested,
            current,
            requested,
        ),
        before.pending is Some && before.pending->0@ == chosen@ && call_ensures(
            nested,
            (chosen, requested),
            true,
        ) && call_ensures(nested, (requested, chosen), true) ==> {
            &&& change_accepted(before, nested, current, requested)
            &&& !change_refused(before, nested, current, requested)
            &&& committed(before, after, nested, requested) ==> after.pending is None
        },
        before.pending is Some && before.pending->0@ == chosen@ && call_ensures(
            nested,
            (current, requested),
            false,
        ) && call_ensures(nested, (chosen, requested), false) ==> {
            &&& !change_accepted(before, nested, current, requested)
            &&& change_refused(before, nested, current, requested)
            &&& committed(before, after, nested, requested) ==> after == before
        },
        before.pending is None && committed(before, after, nested, requested)
            ==> after.pending is None,
{
    assert(seen_same(nested, chosen, requested) ==> chosen_seen_same(
        nested,
        chosen@,
        requested,
    ));
    assert(seen_different(nested, chosen, requested) ==> chosen_seen_different(
        nested,
        chosen@,
        requested,
    ));
}

} // verus!
