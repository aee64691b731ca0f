//! The file names of clips cut from other clips.

use crate::text::{
    chars_of, concat2, concat3, decimal, decimal_string, is_whitespace, join, joined,
    lemma_joined_first_part, lemma_trim_end, lemma_trim_start, lemma_trim_start_shorter,
    lemma_word_len, lemma_words_blank, lemma_words_step, opt_view, padded_decimal_string,
    split_whitespace, string_of, trim, trim_end, trim_start, trimmed, word_len, words, zero_padded,
};
use vstd::prelude::*;

verus! {

// ---------------------------------------------------------------------------
// Titles
// ---------------------------------------------------------------------------

/// The characters that no Windows file name holds.
pub open spec fn is_unfit(c: char) -> bool {
    ||| c < '\u{20}'
    ||| c == '\u{7f}'
    ||| c == '<'
    ||| c == '>'
    ||| c == ':'
    ||| c == '"'
    ||| c == '|'
    ||| c == '?'
    ||| c == '*'
    ||| c == '/'
    ||| c == '\\'
}

fn unfit(c: char) -> (r: bool)
    ensures
        r == is_unfit(c),
{
    c < '\u{20}' || c == '\u{7f}' || c == '<' || c == '>' || c == ':' || c == '"' || c == '|' || c
        == '?' || c == '*' || c == '/' || c == '\\'
}

/// A title with a space in place of each character that no file name holds.
pub open spec fn sanitized(title: Seq<char>) -> Seq<char> {
    title.map_values(
        |c: char|
            if is_unfit(c) {
                ' '
            } else {
                c
            },
    )
}

fn sanitize(title: &str) -> (out: String)
    ensures
        out@ == sanitized(title@),
{
    let chars = chars_of(title);
    let mut out = String::new();
    let mut i: usize = 0;
    while i < chars.len()
        invariant
            i <= chars@.len(),
            chars@ == title@,
            out@ == sanitized(title@.take(i as int)),
        decreases chars@.len() - i,
    {
        let c = chars[i];
        out.push(
            if unfit(c) {
                ' '
            } else {
                c
            },
        );
        i += 1;
        assert(sanitized(title@.take(i as int)) =~= sanitized(title@.take(i - 1)).push(
            if is_unfit(c) {
                ' '
            } else {
                c
            },
        ));
    }
    assert(title@.take(i as int) =~= title@);
    out
}

/// A text without the dots and spaces at its end.
pub open spec fn without_end(s: Seq<char>) -> Seq<char>
    decreases s.len(),
{
    if s.len() > 0 && (s.last() == '.' || s.last() == ' ') {
        without_end(s.drop_last())
    } else {
        s
    }
}

fn strip_end(s: &str) -> (out: String)
    ensures
        out@ == without_end(s@),
{
    let chars = chars_of(s);
    let mut end: usize = chars.len();
    assert(s@.take(s@.len() as int) =~= s@);
    while end > 0 && (chars[end - 1] == '.' || chars[end - 1] == ' ')
        invariant
            end <= chars@.len(),
            chars@ == s@,
            without_end(s@.take(end as int)) == without_end(s@),
        decreases end,
    {
        assert(s@.take(end as int).drop_last() =~= s@.take(end - 1));
        assert(s@.take(end as int).last() == s@[end - 1]);
        end -= 1;
    }
    assert(s@.take(end as int) =~= s@.subrange(0, end as int));
    assert(end > 0 ==> s@.take(end as int).last() == s@[end - 1]);
    string_of(&chars, 0, end)
}

/// The part of a title that a file can be named after.
pub open spec fn title_stem(title: Seq<char>) -> Seq<char> {
    without_end(trimmed(joined(words(sanitized(title)), " "@)))
}

/// The stem of a file named after a title, if it can be. `is_reserved` says of a name whether
/// Windows keeps it for a device.
pub fn export_title_stem<N>(title: &str, is_reserved: N) -> (stem: Option<String>) where
    N: FnOnce(&str) -> bool

    requires
        forall|name: &str| #[trigger] call_requires(is_reserved, (name,)),
    ensures
        title_stem(title@).len() == 0 ==> stem is None,
        title_stem(title@).len() > 0 ==> exists|name: &str, reserved: bool|
            name@ == title_stem(title@) && #[trigger] call_ensures(is_reserved, (name,), reserved)
                && (stem is None <==> reserved),
        stem matches Some(stem) ==> stem@ == title_stem(title@),
{
    let clean = sanitize(title);
    let parts = split_whitespace(clean.as_str());
    let collapsed = join(&parts, " ");
    let shown = trim(collapsed.as_str());
    let stem = strip_end(shown.as_str());
    if stem.as_str().unicode_len() == 0 {
        return None;
    }
    let name = stem.as_str();
    let reserved = is_reserved(name);
    assert(call_ensures(is_reserved, (name,), reserved));
    if reserved {
        None
    } else {
        Some(stem)
    }
}

/// Whether a text holds no character that file names cannot hold.
pub open spec fn is_fit(s: Seq<char>) -> bool {
    forall|i: int| 0 <= i < s.len() ==> !is_unfit(#[trigger] s[i])
}

proof fn lemma_fit_trim_start(s: Seq<char>)
    requires
        is_fit(s),
    ensures
        is_fit(trim_start(s)),
    decreases s.len(),
{
    if s.len() > 0 && trim_start(s) != s {
        lemma_fit_trim_start(s.skip(1));
    }
}

proof fn lemma_fit_trim_end(s: Seq<char>)
    requires
        is_fit(s),
    ensures
        is_fit(trim_end(s)),
    decreases s.len(),
{
    if s.len() > 0 && trim_end(s) != s {
        lemma_fit_trim_end(s.drop_last());
    }
}

proof fn lemma_word_len_bound(s: Seq<char>)
    ensures
        word_len(s) <= s.len(),
    decreases s.len(),
{
    if s.len() > 0 {
        lemma_word_len_bound(s.skip(1));
    }
}

proof fn lemma_fit_words(s: Seq<char>)
    requires
        is_fit(s),
    ensures
        forall|i: int| 0 <= i < words(s).len() ==> is_fit(#[trigger] words(s)[i]),
    decreases s.len(),
{
    let t = trim_start(s);
    let n = word_len(t) as int;
    lemma_fit_trim_start(s);
    lemma_word_len_bound(t);
    if !(t.len() == 0 || t.skip(n).len() >= s.len()) {
        lemma_fit_words(t.skip(n));
        let rest = words(t.skip(n));
        assert forall|i: int| 0 <= i < words(s).len() implies is_fit(#[trigger] words(s)[i]) by {
            if i > 0 {
                assert(words(s)[i] == rest[i - 1]);
            }
        }
    }
}

proof fn lemma_fit_joined(parts: Seq<Seq<char>>, sep: Seq<char>)
    requires
        is_fit(sep),
        forall|i: int| 0 <= i < parts.len() ==> is_fit(#[trigger] parts[i]),
    ensures
        is_fit(joined(parts, sep)),
    decreases parts.len(),
{
    if parts.len() > 1 {
        lemma_fit_joined(parts.drop_last(), sep);
        let before = joined(parts.drop_last(), sep);
        assert(is_fit(before + sep));
        assert(is_fit(parts.last()));
    } else if parts.len() == 1 {
        assert(is_fit(parts[0]));
    }
}

proof fn lemma_without_end(s: Seq<char>)
    ensures
        without_end(s).len() <= s.len(),
        without_end(s) == s.take(without_end(s).len() as int),
        without_end(s).len() > 0 ==> without_end(s).last() != '.' && without_end(s).last() != ' ',
    decreases s.len(),
{
    if s.len() > 0 && (s.last() == '.' || s.last() == ' ') {
        lemma_without_end(s.drop_last());
        assert(s.drop_last().take(without_end(s).len() as int) =~= s.take(
            without_end(s).len() as int,
        ));
    } else {
        assert(s.take(s.len() as int) =~= s);
    }
}

/// A file named after a title has a name that Windows accepts: it holds no separator, drive
/// mark, wildcard or control character, and ends in neither a dot nor a space.
pub proof fn law_title_stem_is_a_file_name(title: Seq<char>)
    ensures
        is_fit(title_stem(title)),
        title_stem(title).len() > 0 ==> title_stem(title).last() != '.' && title_stem(title).last()
            != ' ',
{
    let clean = sanitized(title);
    assert(is_fit(clean));
    lemma_fit_words(clean);
    reveal_strlit(" ");
    lemma_fit_joined(words(clean), " "@);
    let text = joined(words(clean), " "@);
    lemma_fit_trim_start(text);
    lemma_fit_trim_end(text);
    lemma_fit_trim_start(trim_end(text));
    lemma_fit_trim_end(trim_start(text));
    lemma_without_end(trimmed(text));
}

/// Whether a text has one space between its words and nothing round them.
spec fn is_single_spaced(s: Seq<char>) -> bool {
    forall|i: int|
        0 <= i < s.len() && is_whitespace(#[trigger] s[i]) ==> s[i] == ' ' && 0 < i < s.len() - 1
            && !is_whitespace(s[i + 1])
}

proof fn lemma_single_spaced_stays(s: Seq<char>)
    requires
        is_single_spaced(s),
    ensures
        joined(words(s), " "@) == s,
        s.len() > 0 ==> words(s).len() > 0,
    decreases s.len(),
{
    reveal_strlit(" ");
    if s.len() == 0 {
        lemma_words_blank(s);
        assert(s =~= Seq::<char>::empty());
    } else {
        assert(!is_whitespace(s[0]));
        let n = lemma_word_end(s);
        lemma_words_step(s, 0, n);
        let word = s.subrange(0, n);
        if n == s.len() {
            assert(word =~= s);
            assert(s.skip(n) =~= Seq::<char>::empty());
            lemma_words_blank(s.skip(n));
            assert(words(s) =~= seq![s]);
        } else {
            assert(s[n] == ' ' && !is_whitespace(s[n + 1]));
            let rest = s.skip(n + 1);
            assert forall|i: int| 0 <= i < rest.len() && is_whitespace(
                #[trigger] rest[i],
            ) implies rest[i] == ' ' && 0 < i < rest.len() - 1 && !is_whitespace(rest[i + 1]) by {
                assert(rest[i] == s[i + n + 1]);
                assert(rest[i + 1] == s[i + n + 2]);
                assert(rest[0] == s[n + 1]);
            }
            lemma_single_spaced_stays(rest);
            assert(s.skip(n).skip(1) =~= rest);
            lemma_words_after_space(s.skip(n), rest);
            let parts = words(s);
            assert(parts.skip(1) =~= words(rest));
            lemma_joined_first_part(parts, " "@);
            assert(word + " "@ + rest =~= s);
        }
    }
}

/// Where the first word of a text ends.
proof fn lemma_word_end(s: Seq<char>) -> (n: int)
    requires
        s.len() > 0,
        !is_whitespace(s[0]),
    ensures
        0 < n <= s.len(),
        forall|i: int| 0 <= i < n ==> !is_whitespace(#[trigger] s[i]),
        n < s.len() ==> is_whitespace(s[n]),
    decreases s.len(),
{
    let t = s.skip(1);
    if t.len() == 0 || is_whitespace(t[0]) {
        1
    } else {
        let n = lemma_word_end(t);
        assert forall|i: int| 0 <= i < n + 1 implies !is_whitespace(#[trigger] s[i]) by {
            if i > 0 {
                assert(s[i] == t[i - 1]);
            }
        }
        assert(n < t.len() ==> t[n] == s[n + 1]);
        n + 1
    }
}

/// A space in front of a word changes no word.
proof fn lemma_words_after_space(s: Seq<char>, rest: Seq<char>)
    requires
        s.len() > 1,
        is_whitespace(s[0]),
        rest == s.skip(1),
        !is_whitespace(rest[0]),
    ensures
        words(s) == words(rest),
{
    let n = lemma_word_end(rest);
    lemma_words_step(rest, 0, n);
    assert forall|i: int| 1 <= i < n + 1 implies !is_whitespace(#[trigger] s[i]) by {
        assert(s[i] == rest[i - 1]);
    }
    assert(n < rest.len() ==> s[n + 1] == rest[n]);
    lemma_words_step(s, 1, n + 1);
    assert(s.subrange(1, n + 1) =~= rest.subrange(0, n));
    assert(s.skip(n + 1) =~= rest.skip(n));
}

/// A title that is a good file name already is kept as it is: it holds no control character and
/// none of the characters that Windows refuses, has one space between its words and none round
/// them, and does not end in a dot.
pub proof fn law_good_titles_stay(title: Seq<char>)
    requires
        forall|i: int|
            0 <= i < title.len() ==> {
                let c = #[trigger] title[i];
                &&& '\u{20}' <= c && c != '\u{7f}'
                &&& c != '<' && c != '>' && c != ':' && c != '"' && c != '|' && c != '?' && c != '*'
                &&& c != '/' && c != '\\'
            },
        forall|i: int|
            0 <= i < title.len() && is_whitespace(#[trigger] title[i]) ==> title[i] == ' ' && 0 < i
                < title.len() - 1 && !is_whitespace(title[i + 1]),
        title.len() > 0 ==> title.last() != '.',
    ensures
        title_stem(title) == title,
{
    assert(sanitized(title) =~= title);
    assert(is_single_spaced(title));
    lemma_single_spaced_stays(title);
    if title.len() > 0 {
        lemma_trim_start(title, 0);
        lemma_trim_end(title, title.len() as int);
        assert(title.skip(0) =~= title);
        assert(title.take(title.len() as int) =~= title);
    }
}

/// The characters of a text that are not blank and that file names can hold.
spec fn kept(s: Seq<char>) -> Seq<char> {
    s.filter(|c: char| !is_whitespace(c) && !is_unfit(c))
}

proof fn lemma_kept_add(a: Seq<char>, b: Seq<char>)
    ensures
        kept(a + b) == kept(a) + kept(b),
{
    Seq::filter_distributes_over_add(a, b, |c: char| !is_whitespace(c) && !is_unfit(c));
}

proof fn lemma_kept_one(c: char)
    ensures
        kept(seq![c]) == if !is_whitespace(c) && !is_unfit(c) {
            seq![c]
        } else {
            Seq::empty()
        },
        kept(Seq::empty()) == Seq::<char>::empty(),
{
    reveal(Seq::filter);
    assert(seq![c].drop_last() =~= Seq::<char>::empty());
    let f = |c: char| !is_whitespace(c) && !is_unfit(c);
    assert(Seq::<char>::empty().filter(f) =~= Seq::<char>::empty());
    assert(seq![c].filter(f) =~= if f(c) {
        seq![c]
    } else {
        Seq::empty()
    });
}

proof fn lemma_kept_trim_start(s: Seq<char>)
    ensures
        kept(trim_start(s)) == kept(s),
    decreases s.len(),
{
    if s.len() > 0 && is_whitespace(s[0]) {
        lemma_kept_trim_start(s.skip(1));
        assert(s =~= seq![s[0]] + s.skip(1));
        lemma_kept_add(seq![s[0]], s.skip(1));
        lemma_kept_one(s[0]);
        assert(Seq::<char>::empty() + kept(s.skip(1)) =~= kept(s.skip(1)));
    }
}

proof fn lemma_kept_trim_end(s: Seq<char>)
    ensures
        kept(trim_end(s)) == kept(s),
    decreases s.len(),
{
    if s.len() > 0 && is_whitespace(s.last()) {
        lemma_kept_trim_end(s.drop_last());
        assert(s =~= s.drop_last() + seq![s.last()]);
        lemma_kept_add(s.drop_last(), seq![s.last()]);
        lemma_kept_one(s.last());
        assert(kept(s.drop_last()) + Seq::<char>::empty() =~= kept(s.drop_last()));
    }
}

proof fn lemma_kept_words(s: Seq<char>)
    ensures
        kept(joined(words(s), " "@)) == kept(s),
    decreases s.len(),
{
    reveal_strlit(" ");
    assert(" "@ =~= seq![' ']);
    let t = trim_start(s);
    lemma_kept_trim_start(s);
    lemma_trim_start_shorter(s);
    if t.len() == 0 {
        assert(t =~= Seq::<char>::empty());
        assert(words(s) =~= Seq::<Seq<char>>::empty());
    } else {
        let n = lemma_word_end(t);
        lemma_words_step(t, 0, n);
        lemma_trim_start(t, 0);
        assert(t.skip(0) =~= t);
        assert(words(s) == words(t)) by {
            lemma_word_len(t, n);
        }
        let word = t.subrange(0, n);
        let rest = t.skip(n);
        lemma_kept_words(rest);
        assert(t =~= word + rest);
        lemma_kept_add(word, rest);
        let parts = words(s);
        assert(parts.skip(1) =~= words(rest));
        if parts.len() > 1 {
            lemma_joined_first_part(parts, " "@);
            let tail = joined(words(rest), " "@);
            lemma_kept_add(word + " "@, tail);
            lemma_kept_add(word, " "@);
            lemma_kept_one(' ');
            assert(kept(word) + Seq::<char>::empty() =~= kept(word));
        } else {
            assert(words(rest) =~= Seq::<Seq<char>>::empty());
            lemma_kept_one(' ');
            assert(kept(word) + Seq::<char>::empty() =~= kept(word));
            assert(joined(parts, " "@) == word);
        }
    }
}

proof fn lemma_kept_without_end(s: Seq<char>) -> (dots: Seq<char>)
    ensures
        kept(s) == kept(without_end(s)) + dots,
        forall|i: int| 0 <= i < dots.len() ==> (#[trigger] dots[i]) == '.',
    decreases s.len(),
{
    if s.len() > 0 && (s.last() == '.' || s.last() == ' ') {
        let before = lemma_kept_without_end(s.drop_last());
        assert(s =~= s.drop_last() + seq![s.last()]);
        lemma_kept_add(s.drop_last(), seq![s.last()]);
        lemma_kept_one(s.last());
        let dots = before + kept(seq![s.last()]);
        assert(kept(s) =~= kept(without_end(s)) + dots);
        dots
    } else {
        let dots = Seq::<char>::empty();
        assert(kept(s) =~= kept(without_end(s)) + dots);
        dots
    }
}

/// Nothing of a title is lost but white space, the characters that Windows refuses, and dots at
/// its end: every other character stays, in order.
pub proof fn law_title_keeps_its_characters(title: Seq<char>) -> (dots: Seq<char>)
    ensures
        ({
            let stays = |c: char|
                !is_whitespace(c) && '\u{20}' <= c && c != '\u{7f}' && c != '<' && c != '>' && c
                    != ':' && c != '"' && c != '|' && c != '?' && c != '*' && c != '/' && c != '\\';
            title.filter(stays) == title_stem(title).filter(stays) + dots
        }),
        forall|i: int| 0 <= i < dots.len() ==> (#[trigger] dots[i]) == '.',
{
    let stays = |c: char|
        !is_whitespace(c) && '\u{20}' <= c && c != '\u{7f}' && c != '<' && c != '>' && c != ':' && c
            != '"' && c != '|' && c != '?' && c != '*' && c != '/' && c != '\\';
    assert(stays =~= (|c: char| !is_whitespace(c) && !is_unfit(c)));
    let clean = sanitized(title);
    lemma_kept_sanitized(title);
    lemma_kept_words(clean);
    let text = joined(words(clean), " "@);
    lemma_kept_trim_start(text);
    lemma_kept_trim_end(trim_start(text));
    lemma_kept_without_end(trimmed(text))
}

proof fn lemma_kept_sanitized(title: Seq<char>)
    ensures
        kept(sanitized(title)) == kept(title),
    decreases title.len(),
{
    let clean = sanitized(title);
    if title.len() == 0 {
        assert(clean =~= title);
    } else {
        lemma_kept_sanitized(title.drop_last());
        assert(clean.drop_last() =~= sanitized(title.drop_last()));
        assert(clean =~= clean.drop_last() + seq![clean.last()]);
        assert(title =~= title.drop_last() + seq![title.last()]);
        lemma_kept_add(clean.drop_last(), seq![clean.last()]);
        lemma_kept_add(title.drop_last(), seq![title.last()]);
        lemma_kept_one(clean.last());
        lemma_kept_one(title.last());
    }
}

// ---------------------------------------------------------------------------
// Names that are not taken
// ---------------------------------------------------------------------------

/// The candidates for the name of a clip that was cut from another one, by number.
pub open spec fn export_name(
    stem: Seq<char>,
    titled: Option<Seq<char>>,
    start_ms: nat,
    end_ms: nat,
    number: nat,
) -> Seq<char> {
    let base = match titled {
        Some(title) => title,
        None => stem + "_trim_"@ + zero_padded(decimal(start_ms), 6) + "_"@ + zero_padded(
            decimal(end_ms),
            6,
        ),
    };
    if number == 0 {
        base + ".mp4"@
    } else {
        base + "_"@ + decimal(number) + ".mp4"@
    }
}

/// The candidates for the file that such a clip is written to first, by number.
pub open spec fn pending_name(stem: Seq<char>, number: nat) -> Seq<char> {
    stem + "_trim_pending_"@ + zero_padded(decimal(number), 3) + ".mp4.tmp"@
}

/// Whether `taken` may give this answer for a name.
pub open spec fn asked<T: Fn(&str) -> bool>(taken: T, name: Seq<char>, answer: bool) -> bool {
    exists|text: &str| text@ == name && #[trigger] call_ensures(taken, (text,), answer)
}

/// Whether `name` is the candidate of number `k`, it is not taken, and those before it are.
pub open spec fn is_first_free_pending<T: Fn(&str) -> bool>(
    taken: T,
    stem: Seq<char>,
    name: Seq<char>,
    k: nat,
) -> bool {
    &&& k < 1000
    &&& name == pending_name(stem, k)
    &&& asked(taken, name, false)
    &&& forall|j: nat| j < k ==> asked(taken, #[trigger] pending_name(stem, j), true)
}

/// Whether `name` is the first candidate that is not taken.
pub open spec fn chosen_pending<T: Fn(&str) -> bool>(
    taken: T,
    stem: Seq<char>,
    name: Seq<char>,
) -> bool {
    exists|k: nat| #[trigger] is_first_free_pending(taken, stem, name, k)
}

/// Whether `name` is the first candidate that is not taken.
pub open spec fn chosen_export<T: Fn(&str) -> bool>(
    taken: T,
    stem: Seq<char>,
    titled: Option<Seq<char>>,
    start_ms: nat,
    end_ms: nat,
    name: Seq<char>,
) -> bool {
    exists|k: nat| #[trigger]
        is_first_free_export(taken, stem, titled, start_ms, end_ms, name, k)
}

/// Whether `name` is the candidate of number `k`, it is not taken, and those before it are.
pub open spec fn is_first_free_export<T: Fn(&str) -> bool>(
    taken: T,
    stem: Seq<char>,
    titled: Option<Seq<char>>,
    start_ms: nat,
    end_ms: nat,
    name: Seq<char>,
    k: nat,
) -> bool {
    &&& k < 1000
    &&& name == export_name(stem, titled, start_ms, end_ms, k)
    &&& asked(taken, name, false)
    &&& forall|j: nat|
        j < k ==> asked(
            taken,
            #[trigger] export_name(stem, titled, start_ms, end_ms, j),
            true,
        )
}

/// Chooses the first of the names for the file that a clip is written to first that is not
/// taken. `taken` says of a name whether the directory of the clip holds such a file.
pub fn unique_temp_export_name<T>(has_parent: bool, stem: &Option<String>, taken: T) -> (res: Result<
    String,
    String,
>) where T: Fn(&str) -> bool
    requires
        forall|name: &str| #[trigger] call_requires(taken, (name,)),
    ensures
        if !has_parent {
            res is Err && res->Err_0@ == "source clip has no parent directory"@
        } else if stem is None {
            res is Err && res->Err_0@ == "source clip has no file stem"@
        } else {
            match res {
                Ok(name) => chosen_pending(taken, stem->0@, name@),
                Err(error) => error@ == "could not choose an unused temporary export filename"@
                    && forall|j: nat|
                    j < 1000 ==> asked(taken, #[trigger] pending_name(stem->0@, j), true),
            }
        },
{
    if !has_parent {
        return Err("source clip has no parent directory".to_string());
    }
    let base = match stem {
        Some(base) => base,
        None => {
            return Err("source clip has no file stem".to_string());
        },
    };
    let mut number: u64 = 0;
    while number < 1000
        invariant
            number <= 1000,
            has_parent,
            *stem == Some(*base),
            forall|name: &str| #[trigger] call_requires(taken, (name,)),
            forall|j: nat|
                j < number ==> asked(taken, #[trigger] pending_name(base@, j), true),
        decreases 1000 - number,
    {
        let digits = padded_decimal_string(number, 3);
        let numbered = concat3(base.as_str(), "_trim_pending_", digits.as_str());
        let name = concat2(numbered.as_str(), ".mp4.tmp");
        assert(name@ == pending_name(base@, number as nat));
        let text = name.as_str();
        let answer = taken(text);
        assert(asked(taken, name@, answer));
        if !answer {
            assert(is_first_free_pending(taken, stem->0@, name@, number as nat));
            assert(chosen_pending(taken, stem->0@, name@));
            return Ok(name);
        }
        number += 1;
    }
    Err("could not choose an unused temporary export filename".to_string())
}

/// The candidate of a number.
fn candidate(stem: &str, titled: &Option<String>, start_ms: u64, end_ms: u64, number: u64) -> (name:
    String)
    ensures
        name@ == export_name(
            stem@,
            opt_view(*titled),
            start_ms as nat,
            end_ms as nat,
            number as nat,
        ),
{
    let base = match titled {
        Some(title) => title.clone(),
        None => {
            let start = padded_decimal_string(start_ms, 6);
            let end = padded_decimal_string(end_ms, 6);
            let from = concat3(stem, "_trim_", start.as_str());
            concat3(from.as_str(), "_", end.as_str())
        },
    };
    if number == 0 {
        concat2(base.as_str(), ".mp4")
    } else {
        let digits = decimal_string(number);
        let numbered = concat3(base.as_str(), "_", digits.as_str());
        concat2(numbered.as_str(), ".mp4")
    }
}

/// Chooses the first of the names for a clip that was cut from another one that is not taken:
/// after its title, if it has one that a file can be named after, or else after the clip and
/// the times it was cut at.
pub fn unique_export_name<T>(
    has_parent: bool,
    stem: &Option<String>,
    start_ms: u64,
    end_ms: u64,
    titled: &Option<String>,
    taken: T,
) -> (res: Result<String, String>) where T: Fn(&str) -> bool
    requires
        forall|name: &str| #[trigger] call_requires(taken, (name,)),
    ensures
        if !has_parent {
            res is Err && res->Err_0@ == "source clip has no parent directory"@
        } else if stem is None {
            res is Err && res->Err_0@ == "source clip has no file stem"@
        } else {
            match res {
                Ok(name) => chosen_export(
                    taken,
                    stem->0@,
                    opt_view(*titled),
                    start_ms as nat,
                    end_ms as nat,
                    name@,
                ),
                Err(error) => error@ == "could not choose an unused export filename"@ && forall|
                    j: nat,
                |
                    j < 1000 ==> asked(
                        taken,
                        #[trigger] export_name(
                            stem->0@,
                            opt_view(*titled),
                            start_ms as nat,
                            end_ms as nat,
                            j,
                        ),
                        true,
                    ),
            }
        },
{
    if !has_parent {
        return Err("source clip has no parent directory".to_string());
    }
    let base = match stem {
        Some(base) => base,
        None => {
            return Err("source clip has no file stem".to_string());
        },
    };
    let mut number: u64 = 0;
    while number < 1000
        invariant
            number <= 1000,
            has_parent,
            *stem == Some(*base),
            forall|name: &str| #[trigger] call_requires(taken, (name,)),
            forall|j: nat|
                j < number ==> asked(
                    taken,
                    #[trigger] export_name(
                        base@,
                        opt_view(*titled),
                        start_ms as nat,
                        end_ms as nat,
                        j,
                    ),
                    true,
                ),
        decreases 1000 - number,
    {
        let name = candidate(base.as_str(), titled, start_ms, end_ms, number);
        let text = name.as_str();
        let answer = taken(text);
        assert(asked(taken, name@, answer));
        if !answer {
            assert(is_first_free_export(
                taken,
                stem->0@,
                opt_view(*titled),
                start_ms as nat,
                end_ms as nat,
                name@,
                number as nat,
            ));
            assert(chosen_export(
                taken,
                stem->0@,
                opt_view(*titled),
                start_ms as nat,
                end_ms as nat,
                name@,
            ));
            return Ok(name);
        }
        number += 1;
    }
    Err("could not choose an unused export filename".to_string())
}

/// The candidates for the name of a cut clip: its title where it has one, else the name of the
/// clip that it was cut from with the part in milliseconds; later candidates bear their number.
pub proof fn law_names_of_cut_clips(
    stem: Seq<char>,
    title: Seq<char>,
    start_ms: nat,
    end_ms: nat,
    number: nat,
)
    ensures
        export_name(stem, Some(title), start_ms, end_ms, 0) == title + ".mp4"@,
        export_name(stem, None, start_ms, end_ms, 0) == stem + "_trim_"@ + zero_padded(
            decimal(start_ms),
            6,
        ) + "_"@ + zero_padded(decimal(end_ms), 6) + ".mp4"@,
        number > 0 ==> export_name(stem, Some(title), start_ms, end_ms, number) == title + "_"@
            + decimal(number) + ".mp4"@,
        number > 0 ==> export_name(stem, None, start_ms, end_ms, number) == stem + "_trim_"@
            + zero_padded(decimal(start_ms), 6) + "_"@ + zero_padded(decimal(end_ms), 6) + "_"@
            + decimal(number) + ".mp4"@,
        pending_name(stem, number) == stem + "_trim_pending_"@ + zero_padded(decimal(number), 3)
            + ".mp4.tmp"@,
{
}

/// The name of a cut clip is not taken, and all the candidates before it are.
pub proof fn law_first_free_name_is_chosen<T: Fn(&str) -> bool>(
    taken: T,
    stem: Seq<char>,
    titled: Option<Seq<char>>,
    start_ms: nat,
    end_ms: nat,
    name: Seq<char>,
    j: nat,
) -> (number: nat)
    requires
        chosen_export(taken, stem, titled, start_ms, end_ms, name),
    ensures
        number < 1000,
        name == export_name(stem, titled, start_ms, end_ms, number),
        exists|text: &str| text@ == name && #[trigger] call_ensures(taken, (text,), false),
        j < number ==> exists|text: &str|
            text@ == export_name(stem, titled, start_ms, end_ms, j) && #[trigger] call_ensures(
                taken,
                (text,),
                true,
            ),
{
    let number = choose|k: nat| #[trigger]
        is_first_free_export(taken, stem, titled, start_ms, end_ms, name, k);
    assert(asked(taken, name, false));
    if j < number {
        assert(asked(taken, export_name(stem, titled, start_ms, end_ms, j), true));
    }
    number
}

/// The file that a cut clip is written to first is not taken, and all the candidates before it
/// are.
pub proof fn law_first_free_pending_name_is_chosen<T: Fn(&str) -> bool>(
    taken: T,
    stem: Seq<char>,
    name: Seq<char>,
    j: nat,
) -> (number: nat)
    requires
        chosen_pending(taken, stem, name),
    ensures
        number < 1000,
        name == pending_name(stem, number),
        exists|text: &str| text@ == name && #[trigger] call_ensures(taken, (text,), false),
        j < number ==> exists|text: &str|
            text@ == pending_name(stem, j) && #[trigger] call_ensures(taken, (text,), true),
{
    let number = choose|k: nat| #[trigger] is_first_free_pending(taken, stem, name, k);
    assert(asked(taken, name, false));
    if j < number {
        assert(asked(taken, pending_name(stem, j), true));
    }
    number
}

} // verus!
