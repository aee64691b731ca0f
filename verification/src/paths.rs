//! File-system paths as text.

use crate::text::{has_prefix, has_suffix};
use vstd::prelude::*;

verus! {

/// A non-empty name that holds no separator and no drive mark.
pub open spec fn is_component(part: Seq<char>) -> bool {
    &&& part.len() > 0
    &&& !part.contains('/')
    &&& !part.contains('\\')
    &&& !part.contains(':')
}

/// The separators that may stand between a directory and a name in it.
pub open spec fn is_separator_text(sep: Seq<char>) -> bool {
    sep == Seq::<char>::empty() || sep == seq!['/'] || sep == seq!['\\']
}

/// Whether a name may follow a base without a separator: there is no base, or it ends with a
/// separator or a drive mark.
pub open spec fn needs_no_separator(base: Seq<char>) -> bool {
    base.len() == 0 || base.last() == '/' || base.last() == '\\' || base.last() == ':'
}

/// `path` is `base` followed by a separator, where one is needed, and `part`.
pub open spec fn is_child_path(path: Seq<char>, base: Seq<char>, part: Seq<char>) -> bool {
    exists|sep: Seq<char>| #[trigger]
        is_separator_text(sep) && path == base + sep + part && (sep.len() == 0
            ==> needs_no_separator(base))
}

/// Windows paths with the verbatim prefix, which are normalised when extended.
pub open spec fn is_verbatim(path: Seq<char>) -> bool {
    has_prefix(path, "\\\\?\\"@)
}

/// Calls `std::path::Path::join`: where the part is the name of an entry, the
/// result is the directory, one separator and the name; the separator is left out
/// only where the directory is empty or ends with one, or with a drive mark. Which
/// separator stands there is the platform's choice. Of a verbatim Windows directory,
/// which `join` normalises, only the name at the end is claimed, and of a part that
/// is more than a name nothing.
#[verifier::external_body]
pub(crate) fn join_path(base: &str, part: &str) -> (path: String)
    ensures
        is_component(part@) && !is_verbatim(base@) ==> is_child_path(path@, base@, part@),
        is_plain_name(part@) ==> has_suffix(path@, part@),
{
    std::path::Path::new(base).join(part).to_string_lossy().into_owned()
}

/// `path` is `base`, `first` and `second` joined in order.
pub open spec fn is_grandchild_path(
    path: Seq<char>,
    base: Seq<char>,
    first: Seq<char>,
    second: Seq<char>,
) -> bool {
    exists|mid: Seq<char>|
        #[trigger] is_child_path(mid, base, first) && (!is_verbatim(mid) ==> is_child_path(
            path,
            mid,
            second,
        ))
}

/// `base`, `first` and `second` joined in order.
pub(crate) fn join_two(base: &str, first: &str, second: &str) -> (path: String)
    ensures
        is_component(first@) && is_component(second@) && !is_verbatim(base@)
            ==> is_grandchild_path(path@, base@, first@, second@),
        is_plain_name(second@) ==> has_suffix(path@, second@),
{
    let mid = join_path(base, first);
    let path = join_path(mid.as_str(), second);
    assert(is_component(first@) && !is_verbatim(base@) ==> is_child_path(mid@, base@, first@));
    path
}

/// Whether a path lies under a directory, by their texts.
pub open spec fn lies_under(path: Seq<char>, dir: Seq<char>) -> bool {
    &&& path.len() > dir.len()
    &&& has_prefix(path, dir)
    &&& path[dir.len() as int] == '/' || path[dir.len() as int] == '\\'
}

/// A base that is not verbatim, nor becomes so when a name is joined to it.
pub open spec fn is_plain_base(base: Seq<char>) -> bool {
    !is_verbatim(base) && base != "\\\\?"@
}

/// What two joins spell out.
pub(crate) proof fn lemma_grandchild(
    path: Seq<char>,
    base: Seq<char>,
    first: Seq<char>,
    second: Seq<char>,
) -> (seps: (Seq<char>, Seq<char>))
    requires
        is_grandchild_path(path, base, first, second),
        is_plain_base(base),
        is_component(first),
        first[0] != '?',
    ensures
        is_separator_text(seps.0),
        is_separator_text(seps.1),
        seps.0.len() == 0 ==> needs_no_separator(base),
        seps.1.len() == 1,
        path == base + seps.0 + first + seps.1 + second,
        is_child_path(base + seps.0 + first, base, first),
        is_child_path(path, base + seps.0 + first, second),
{
    let mid = choose|mid: Seq<char>|
        #[trigger] is_child_path(mid, base, first) && (!is_verbatim(mid) ==> is_child_path(
            path,
            mid,
            second,
        ));
    let sep = choose|sep: Seq<char>| #[trigger]
        is_separator_text(sep) && mid == base + sep + first && (sep.len() == 0
            ==> needs_no_separator(base));
    assert(!is_verbatim(mid)) by {
        reveal_strlit("\\\\?\\");
        reveal_strlit("\\\\?");
        if is_verbatim(mid) {
            let head = mid.take(4);
            assert(head[0] == '\\' && head[1] == '\\' && head[2] == '?' && head[3] == '\\');
            assert(mid[0] == '\\' && mid[1] == '\\' && mid[2] == '?' && mid[3] == '\\');
            assert(first.contains(first[0]));
            let at = base.len() + sep.len();
            assert(at < mid.len() && mid[at as int] == first[0]);
            if base.len() >= 4 {
                assert(base.take(4) =~= "\\\\?\\"@);
            } else if base.len() == 3 {
                assert(base[0] == mid[0] && base[1] == mid[1] && base[2] == mid[2]);
                assert(base =~= "\\\\?"@);
            } else if at <= 3 {
            }
        }
    }
    let last = choose|last: Seq<char>| #[trigger]
        is_separator_text(last) && path == mid + last + second && (last.len() == 0
            ==> needs_no_separator(mid));
    assert(mid.last() == first.last());
    assert(first.contains(first.last()));
    assert(path =~= base + sep + first + last + second);
    (sep, last)
}

/// A name that is its own last component on every platform.
pub open spec fn is_plain_name(name: Seq<char>) -> bool {
    is_component(name) && name != "."@ && name != ".."@
}

/// Text that is the last component of no path on any platform.
pub open spec fn is_never_a_name(name: Seq<char>) -> bool {
    name.len() == 0 || name == "."@ || name == ".."@ || name.contains('/')
}

/// Calls `std::path::Path::file_name`: the last component of a path. A plain name is
/// its own last component, and text that is no name is not. What else counts as a
/// separator or a drive mark is the platform's choice.
#[verifier::external_body]
pub(crate) fn file_name_of(path: &str) -> (name: Option<String>)
    ensures
        is_plain_name(path@) ==> (name matches Some(name) && name@ == path@),
        is_never_a_name(path@) ==> (name matches Some(name) ==> name@ != path@),
{
    std::path::Path::new(path).file_name().map(|name| name.to_string_lossy().into_owned())
}

/// The root of a share, or a path below it, written with `/`: two of them, the name of a
/// server, one, and the name of a share.
pub open spec fn is_share_path(
    path: Seq<char>,
    server: Seq<char>,
    share: Seq<char>,
    rest: Seq<char>,
) -> bool {
    &&& is_plain_name(server)
    &&& server != "?"@
    &&& is_plain_name(share)
    &&& rest.len() > 0 ==> rest[0] == '/'
    &&& path == "//"@ + server + "/"@ + share + rest
}

/// A path below the root of a share.
pub open spec fn lies_on_share(path: Seq<char>) -> bool {
    exists|server: Seq<char>, share: Seq<char>, rest: Seq<char>| #[trigger]
        is_share_path(path, server, share, rest)
}

/// Text that starts with neither a separator nor a drive mark.
pub open spec fn starts_relative(path: Seq<char>) -> bool {
    &&& path.len() > 0 ==> path[0] != '/' && path[0] != '\\'
    &&& path.len() > 1 ==> path[1] != ':'
}

/// Calls `std::path::Path::is_absolute`: a path that starts with neither a separator
/// nor a drive mark is not absolute on any platform, and one below the root of a share
/// is absolute on every one.
#[verifier::external_body]
pub(crate) fn is_absolute_path(path: &str) -> (absolute: bool)
    ensures
        starts_relative(path@) ==> !absolute,
        lies_on_share(path@) ==> absolute,
{
    std::path::Path::new(path).is_absolute()
}

} // verus!
