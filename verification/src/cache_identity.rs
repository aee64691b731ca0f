//! Path components of the cloud cache.

use crate::text::{char_is_ascii_alphanumeric, chars_of, concat2, is_ascii_alphanumeric, trim, trimmed};
use vstd::prelude::*;

verus! {

/// ASCII letters and digits, hyphens and underscores, at least one.
pub open spec fn is_cache_component(value: Seq<char>) -> bool {
    &&& value.len() > 0
    &&& forall|i: int|
        0 <= i < value.len() ==> is_ascii_alphanumeric(#[trigger] value[i]) || value[i] == '-'
            || value[i] == '_'
}

/// Accepts a value that is safe as a path component, without the white space round it.
pub fn validate_cloud_cache_component(value: &str, label: &str) -> (res: Result<String, String>)
    ensures
        res is Ok <==> is_cache_component(trimmed(value@)),
        match res {
            Ok(component) => component@ == trimmed(value@),
            Err(message) => message@ == label@ + " contains unsupported characters"@,
        },
{
    let component = trim(value);
    let chars = chars_of(component.as_str());
    let mut ok = chars.len() > 0;
    let mut i: usize = 0;
    while i < chars.len()
        invariant
            i <= chars@.len(),
            chars@ == trimmed(value@),
            ok == (chars@.len() > 0 && forall|k: int|
                0 <= k < i ==> is_ascii_alphanumeric(#[trigger] chars@[k]) || chars@[k] == '-'
                    || chars@[k] == '_'),
        decreases chars@.len() - i,
    {
        let c = chars[i];
        if !(char_is_ascii_alphanumeric(c) || c == '-' || c == '_') {
            ok = false;
        }
        i += 1;
    }
    if ok {
        Ok(component)
    } else {
        Err(concat2(label, " contains unsupported characters"))
    }
}

/// A component of a cache path holds nothing but ASCII letters and digits, `-` and `_`, and every
/// text of these that is not empty is one.
pub proof fn law_cache_components(value: Seq<char>)
    ensures
        is_cache_component(value) <==> value.len() > 0 && forall|i: int|
            0 <= i < value.len() ==> {
                let c = #[trigger] value[i];
                'a' <= c <= 'z' || 'A' <= c <= 'Z' || '0' <= c <= '9' || c == '-' || c == '_'
            },
{
}

} // verus!
