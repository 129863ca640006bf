use vstd::prelude::*;
use crate::text::push_char;

verus! {

/// Whether a character counts as white space (Unicode's White_Space property).
pub uninterp spec fn is_space(c: char) -> bool;

/// The lowercase form of a text.
pub uninterp spec fn lower_of(s: Seq<char>) -> Seq<char>;

/// Whether a character is lowercase (Unicode's Lowercase property).
pub uninterp spec fn is_lower(c: char) -> bool;

/// The uppercase form of one character, which may be several characters long.
pub uninterp spec fn upper_of(c: char) -> Seq<char>;

/// Relies on char::is_whitespace: whether the character has Unicode's
/// White_Space property; it depends on the character alone.
#[verifier::external_body]
fn is_whitespace(c: char) -> (r: bool)
    ensures
        r == is_space(c),
{
    c.is_whitespace()
}

/// Relies on str::to_lowercase: the Unicode lowercase mapping of the text,
/// which depends on the text alone.
#[verifier::external_body]
pub(crate) fn to_lowercase(s: &str) -> (r: String)
    ensures
        r@ == lower_of(s@),
{
    s.to_lowercase()
}

/// Relies on char::is_lowercase: whether the character has Unicode's
/// Lowercase property; it depends on the character alone.
#[verifier::external_body]
fn is_lowercase(c: char) -> (r: bool)
    ensures
        r == is_lower(c),
{
    c.is_lowercase()
}

/// Relies on char::to_uppercase: the Unicode uppercase mapping of the
/// character, collected into a string; it depends on the character alone.
#[verifier::external_body]
fn to_uppercase(c: char) -> (r: String)
    ensures
        r@ == upper_of(c),
{
    c.to_uppercase().collect()
}

/// Relies on str::chars: the characters of the text, in order.
#[verifier::external_body]
pub(crate) fn chars_of(s: &str) -> (r: Vec<char>)
    ensures
        r@ == s@,
{
    s.chars().collect()
}

/// The views of a sequence of character vectors.
pub open spec fn views(ws: Seq<Vec<char>>) -> Seq<Seq<char>> {
    ws.map_values(|w: Vec<char>| w@)
}

/// Splitting `s` into words from position `i` on, `cur` being the part of a
/// word already read.
pub open spec fn split_from(s: Seq<char>, i: int, cur: Seq<char>) -> Seq<Seq<char>>
    decreases s.len() - i,
{
    if i >= s.len() {
        if cur.len() == 0 {
            seq![]
        } else {
            seq![cur]
        }
    } else if is_space(s[i]) {
        if cur.len() == 0 {
            split_from(s, i + 1, cur)
        } else {
            seq![cur] + split_from(s, i + 1, seq![])
        }
    } else {
        split_from(s, i + 1, cur.push(s[i]))
    }
}

/// The maximal runs of non-space characters of `s`, in order.
pub open spec fn words_of(s: Seq<char>) -> Seq<Seq<char>> {
    split_from(s, 0, seq![])
}

/// The words joined by single spaces.
pub open spec fn join_words(ws: Seq<Seq<char>>) -> Seq<char>
    decreases ws.len(),
{
    if ws.len() == 0 {
        seq![]
    } else if ws.len() == 1 {
        ws[0]
    } else {
        join_words(ws.drop_last()) + seq![' '] + ws.last()
    }
}

/// `s` with every run of spaces cut down to one space.
pub open spec fn collapse_spaces(s: Seq<char>) -> Seq<char>
    decreases s.len(),
{
    if s.len() == 0 {
        s
    } else {
        let p = collapse_spaces(s.drop_last());
        if s.last() == ' ' && p.len() > 0 && p.last() == ' ' {
            p
        } else {
            p.push(s.last())
        }
    }
}

/// The punctuation stripped from both ends of a word before it is compared
/// with the markers.
pub open spec fn is_punct(c: char) -> bool {
    c == ',' || c == '.' || c == ';' || c == ':' || c == '!' || c == '?'
}

pub open spec fn strip_front(s: Seq<char>) -> Seq<char>
    decreases s.len(),
{
    if s.len() > 0 && is_punct(s[0]) {
        strip_front(s.drop_first())
    } else {
        s
    }
}

pub open spec fn strip_back(s: Seq<char>) -> Seq<char>
    decreases s.len(),
{
    if s.len() > 0 && is_punct(s.last()) {
        strip_back(s.drop_last())
    } else {
        s
    }
}

/// A word without punctuation at either end.
pub open spec fn strip_punct(s: Seq<char>) -> Seq<char> {
    strip_back(strip_front(s))
}

/// The background-activity markers the recogniser is known to emit.
pub open spec fn is_marker(s: Seq<char>) -> bool {
    ||| s == "[музыка]"@
    ||| s == "[music]"@
    ||| s == "[аплодисменты]"@
    ||| s == "[applause]"@
    ||| s == "[смех]"@
    ||| s == "[laughter]"@
    ||| s == "[шум]"@
    ||| s == "[noise]"@
    ||| s == "[тишина]"@
    ||| s == "[silence]"@
    ||| s == "[фон]"@
    ||| s == "[background]"@
    ||| s == "[background noise]"@
}

/// A word stays unless, stripped of punctuation and lowercased, it is a marker.
pub open spec fn is_speech(w: Seq<char>) -> bool {
    !is_marker(lower_of(strip_punct(w)))
}

/// The words that are speech, in order.
pub open spec fn speech_words(ws: Seq<Seq<char>>) -> Seq<Seq<char>>
    decreases ws.len(),
{
    if ws.len() == 0 {
        seq![]
    } else if is_speech(ws.last()) {
        speech_words(ws.drop_last()).push(ws.last())
    } else {
        speech_words(ws.drop_last())
    }
}

/// The text without its marker words, the rest joined by single spaces.
pub open spec fn without_markers(s: Seq<char>) -> Seq<char> {
    join_words(speech_words(words_of(s)))
}

/// Builds a string from characters.
fn string_of(cs: &Vec<char>) -> (r: String)
    ensures
        r@ == cs@,
{
    let mut s = String::new();
    let mut i: usize = 0;
    while i < cs.len()
        invariant
            i <= cs@.len(),
            s@ == cs@.take(i as int),
        decreases cs@.len() - i,
    {
        push_char(&mut s, cs[i]);
        i = i + 1;
        assert(s@ =~= cs@.take(i as int));
    }
    assert(cs@.take(cs@.len() as int) =~= cs@);
    s
}

/// Appends all of `cs` to `out`.
fn push_all(out: &mut Vec<char>, cs: &Vec<char>)
    ensures
        final(out)@ == old(out)@ + cs@,
{
    let ghost start = out@;
    let mut i: usize = 0;
    while i < cs.len()
        invariant
            i <= cs@.len(),
            out@ == start + cs@.take(i as int),
        decreases cs@.len() - i,
    {
        out.push(cs[i]);
        i = i + 1;
        assert(out@ =~= start + cs@.take(i as int));
    }
    assert(cs@.take(cs@.len() as int) =~= cs@);
}

/// Splits characters into words at white space.
fn split_words(cs: &Vec<char>) -> (r: Vec<Vec<char>>)
    ensures
        views(r@) == words_of(cs@),
{
    let mut words: Vec<Vec<char>> = Vec::new();
    let mut cur: Vec<char> = Vec::new();
    let mut i: usize = 0;
    while i < cs.len()
        invariant
            i <= cs@.len(),
            words_of(cs@) == views(words@) + split_from(cs@, i as int, cur@),
        decreases cs@.len() - i,
    {
        let c = cs[i];
        if is_whitespace(c) {
            if cur.len() > 0 {
                let ghost before = words@;
                let ghost w = cur@;
                let mut done: Vec<char> = Vec::new();
                std::mem::swap(&mut cur, &mut done);
                words.push(done);
                assert(views(words@) =~= views(before).push(w));
                assert(views(before) + (seq![w] + split_from(cs@, i + 1, seq![])) =~= views(
                    before,
                ).push(w) + split_from(cs@, i + 1, seq![]));
            }
        } else {
            cur.push(c);
        }
        i = i + 1;
    }
    if cur.len() > 0 {
        let ghost before = words@;
        let ghost w = cur@;
        words.push(cur);
        assert(views(words@) =~= views(before).push(w));
        assert(views(before) + seq![w] =~= views(before).push(w));
    } else {
        assert(views(words@) + seq![] =~= views(words@));
    }
    words
}

/// Joins words with single spaces.
fn join_with_spaces(words: &Vec<Vec<char>>) -> (r: Vec<char>)
    ensures
        r@ == join_words(views(words@)),
{
    let mut out: Vec<char> = Vec::new();
    let mut i: usize = 0;
    while i < words.len()
        invariant
            i <= words@.len(),
            out@ == join_words(views(words@).take(i as int)),
        decreases words@.len() - i,
    {
        assert(views(words@).take(i + 1).drop_last() =~= views(words@).take(i as int));
        if i > 0 {
            out.push(' ');
        }
        push_all(&mut out, &words[i]);
        i = i + 1;
        assert(out@ =~= join_words(views(words@).take(i as int)));
    }
    assert(views(words@).take(words@.len() as int) =~= views(words@));
    out
}

/// Cuts every run of spaces down to one space.
fn collapse_runs(cs: &Vec<char>) -> (r: Vec<char>)
    ensures
        r@ == collapse_spaces(cs@),
{
    let mut out: Vec<char> = Vec::new();
    let mut i: usize = 0;
    while i < cs.len()
        invariant
            i <= cs@.len(),
            out@ == collapse_spaces(cs@.take(i as int)),
        decreases cs@.len() - i,
    {
        assert(cs@.take(i + 1).drop_last() =~= cs@.take(i as int));
        let c = cs[i];
        let n = out.len();
        if !(c == ' ' && n > 0 && out[n - 1] == ' ') {
            out.push(c);
        }
        i = i + 1;
    }
    assert(cs@.take(cs@.len() as int) =~= cs@);
    out
}

/// Strips punctuation from both ends of a word.
fn strip_punctuation(w: &Vec<char>) -> (r: Vec<char>)
    ensures
        r@ == strip_punct(w@),
{
    let n = w.len();
    let mut i: usize = 0;
    assert(w@.subrange(0, n as int) =~= w@);
    while i < n && (w[i] == ',' || w[i] == '.' || w[i] == ';' || w[i] == ':' || w[i] == '!' || w[i]
        == '?')
        invariant
            i <= n,
            n == w@.len(),
            strip_front(w@) == strip_front(w@.subrange(i as int, n as int)),
        decreases n - i,
    {
        assert(w@.subrange(i as int, n as int).drop_first() =~= w@.subrange(i + 1, n as int));
        i = i + 1;
    }
    assert(strip_front(w@.subrange(i as int, n as int)) == w@.subrange(i as int, n as int));
    let mut j: usize = n;
    while j > i && (w[j - 1] == ',' || w[j - 1] == '.' || w[j - 1] == ';' || w[j - 1] == ':' || w[j
        - 1] == '!' || w[j - 1] == '?')
        invariant
            i <= j <= n,
            n == w@.len(),
            strip_punct(w@) == strip_back(w@.subrange(i as int, j as int)),
        decreases j - i,
    {
        assert(w@.subrange(i as int, j as int).drop_last() =~= w@.subrange(i as int, j - 1));
        j = j - 1;
    }
    let mut out: Vec<char> = Vec::new();
    let mut k: usize = i;
    while k < j
        invariant
            i <= k <= j <= n,
            n == w@.len(),
            out@ == w@.subrange(i as int, k as int),
        decreases j - k,
    {
        out.push(w[k]);
        k = k + 1;
        assert(out@ =~= w@.subrange(i as int, k as int));
    }
    out
}

/// Whether a lowercased, punctuation-free word is one of the markers.
pub fn is_non_speech_marker(cleaned: &str) -> (r: bool)
    ensures
        r == is_marker(cleaned@),
{
    let s = String::from_str(cleaned);
    s == String::from_str("[музыка]") || s == String::from_str("[music]") || s == String::from_str(
        "[аплодисменты]",
    ) || s == String::from_str("[applause]") || s == String::from_str("[смех]") || s
        == String::from_str("[laughter]") || s == String::from_str("[шум]") || s == String::from_str(
        "[noise]",
    ) || s == String::from_str("[тишина]") || s == String::from_str("[silence]") || s
        == String::from_str("[фон]") || s == String::from_str("[background]") || s
        == String::from_str("[background noise]")
}

/// Whether a word is speech rather than a marker.
fn is_speech_word(w: &Vec<char>) -> (r: bool)
    ensures
        r == is_speech(w@),
{
    let stripped = strip_punctuation(w);
    let s = string_of(&stripped);
    let lowered = to_lowercase(s.as_str());
    !is_non_speech_marker(lowered.as_str())
}

/// Removes the background-activity markers (`[музыка]`, `[music]` and the
/// like) that the recogniser emits, and joins what is left with single spaces.
pub fn remove_non_speech_markers(text: &str) -> (r: String)
    ensures
        r@ == without_markers(text@),
{
    let cs = chars_of(text);
    let words = split_words(&cs);
    let mut kept: Vec<Vec<char>> = Vec::new();
    let mut i: usize = 0;
    while i < words.len()
        invariant
            i <= words@.len(),
            views(kept@) == speech_words(views(words@).take(i as int)),
        decreases words@.len() - i,
    {
        assert(views(words@).take(i + 1).drop_last() =~= views(words@).take(i as int));
        assert(views(words@).take(i + 1).last() == words@[i as int]@);
        if is_speech_word(&words[i]) {
            let ghost before = kept@;
            kept.push(words[i].clone());
            assert(views(kept@) =~= views(before).push(words@[i as int]@));
        }
        i = i + 1;
    }
    assert(views(words@).take(words@.len() as int) =~= views(words@));
    let joined = join_with_spaces(&kept);
    string_of(&joined)
}

/// Whether the `k` words at `i` are repeated right after themselves.
pub open spec fn halves_match(w: Seq<Seq<char>>, i: int, k: int) -> bool {
    i + 2 * k <= w.len() && w.subrange(i, i + k) == w.subrange(i + k, i + 2 * k)
}

/// The longest repeated run at `i` of at most `k` words, or zero when no run
/// of two words or more repeats.
pub open spec fn repeat_len(w: Seq<Seq<char>>, i: int, k: int) -> int
    decreases k,
{
    if k < 2 {
        0
    } else if halves_match(w, i, k) {
        k
    } else {
        repeat_len(w, i, k - 1)
    }
}

/// Runs of up to ten words are looked for.
pub open spec fn longest_repeat(w: Seq<Seq<char>>, i: int) -> int {
    repeat_len(w, i, if w.len() - i < 10 { w.len() - i } else { 10 })
}

/// The words from `i` on with each immediately repeated run kept once,
/// the longest run being taken at each position.
pub open spec fn collapse_repeats(w: Seq<Seq<char>>, i: int) -> Seq<Seq<char>>
    decreases w.len() - i,
{
    if i >= w.len() {
        seq![]
    } else {
        let k = longest_repeat(w, i);
        if k >= 2 && i + 2 * k <= w.len() {
            w.subrange(i, i + k) + collapse_repeats(w, i + 2 * k)
        } else {
            seq![w[i]] + collapse_repeats(w, i + 1)
        }
    }
}

/// A text of fewer than four words is kept as it is; otherwise its words,
/// with repeated runs kept once, joined by single spaces.
pub open spec fn without_repetitions(s: Seq<char>) -> Seq<char> {
    if words_of(s).len() < 4 {
        s
    } else {
        join_words(collapse_repeats(words_of(s), 0))
    }
}

/// The first character in uppercase when it is a lowercase letter.
pub open spec fn capitalized(s: Seq<char>) -> Seq<char> {
    if s.len() > 0 && is_lower(s[0]) {
        upper_of(s[0]) + s.drop_first()
    } else {
        s
    }
}

/// The whole clean-up of a recognised text.
pub open spec fn processed(s: Seq<char>) -> Seq<char> {
    without_repetitions(capitalized(collapse_spaces(without_markers(s))))
}

fn same_word(a: &Vec<char>, b: &Vec<char>) -> (r: bool)
    ensures
        r == (a@ == b@),
{
    if a.len() != b.len() {
        return false;
    }
    let mut j: usize = 0;
    while j < a.len()
        invariant
            j <= a@.len(),
            a@.len() == b@.len(),
            forall|t: int| 0 <= t < j ==> a@[t] == b@[t],
        decreases a@.len() - j,
    {
        if a[j] != b[j] {
            return false;
        }
        j = j + 1;
    }
    assert(a@ =~= b@);
    true
}

/// Whether the `k` words at `i` are repeated right after themselves.
fn halves_equal(words: &Vec<Vec<char>>, i: usize, k: usize) -> (r: bool)
    requires
        i as int + 2 * (k as int) <= words@.len(),
    ensures
        r == halves_match(views(words@), i as int, k as int),
{
    let ghost w = views(words@);
    assert(w.len() == words@.len());
    let n = words.len();
    let mut t: usize = 0;
    while t < k
        invariant
            t <= k,
            n == words@.len(),
            i as int + 2 * (k as int) <= words@.len(),
            w == views(words@),
            forall|u: int| 0 <= u < t ==> #[trigger] w[i + u] == w[i + k + u],
        decreases k - t,
    {
        let a = i + t;
        let b = i + k + t;
        assert(w[a as int] == words@[a as int]@);
        assert(w[b as int] == words@[b as int]@);
        if !same_word(&words[a], &words[b]) {
            assert(w.subrange(i as int, i + k)[t as int] != w.subrange(i + k, i + 2 * k)[t as int]);
            return false;
        }
        t = t + 1;
    }
    assert forall|u: int| 0 <= u < k implies #[trigger] w.subrange(i as int, i + k)[u] == w.subrange(
        i + k,
        i + 2 * k,
    )[u] by {
        assert(w[i + u] == w[i + k + u]);
    }
    assert(w.subrange(i as int, i + k) =~= w.subrange(i + k, i + 2 * k));
    true
}

/// Appends copies of the words in `from..to`.
fn push_words(out: &mut Vec<Vec<char>>, words: &Vec<Vec<char>>, from: usize, to: usize)
    requires
        from <= to <= words@.len(),
    ensures
        views(final(out)@) == views(old(out)@) + views(words@).subrange(from as int, to as int),
{
    let ghost start = views(out@);
    let mut t: usize = from;
    while t < to
        invariant
            from <= t <= to <= words@.len(),
            views(out@) == start + views(words@).subrange(from as int, t as int),
        decreases to - t,
    {
        let ghost before = out@;
        out.push(words[t].clone());
        assert(views(out@) =~= views(before).push(words@[t as int]@));
        t = t + 1;
        assert(views(out@) =~= start + views(words@).subrange(from as int, t as int));
    }
}

/// The longest repeated run of at most ten words at `i`, or zero.
fn find_repeat(words: &Vec<Vec<char>>, i: usize) -> (r: usize)
    requires
        i < words@.len(),
    ensures
        r as int == longest_repeat(views(words@), i as int),
        r >= 2 ==> i + 2 * r <= words@.len(),
{
    let ghost w = views(words@);
    let n = words.len();
    let kmax: usize = if n - i < 10 {
        n - i
    } else {
        10
    };
    let mut k: usize = kmax;
    let mut found: usize = 0;
    while k >= 2
        invariant
            k <= kmax <= 10,
            found != 0 ==> k < 2,
            i < n == words@.len(),
            w == views(words@),
            found == 0 ==> repeat_len(w, i as int, kmax as int) == repeat_len(w, i as int, k as int),
            found != 0 ==> found as int == repeat_len(w, i as int, kmax as int) && found >= 2 && i + 2
                * found <= n,
        decreases k,
    {
        if 2 * k <= n - i && halves_equal(words, i, k) {
            assert(repeat_len(w, i as int, k as int) == k);
            found = k;
            k = 1;
        } else {
            k = k - 1;
        }
    }
    found
}

/// Keeps once each run of two to ten words that is immediately repeated, as
/// recognisers tend to repeat themselves. A text of fewer than four words is
/// returned as it is.
pub fn remove_repetitions(text: &str) -> (r: String)
    ensures
        r@ == without_repetitions(text@),
{
    let cs = chars_of(text);
    let words = split_words(&cs);
    if words.len() < 4 {
        return String::from_str(text);
    }
    let ghost w = views(words@);
    let n = words.len();
    let mut result: Vec<Vec<char>> = Vec::new();
    let mut i: usize = 0;
    while i < n
        invariant
            i <= n == words@.len(),
            w == views(words@),
            collapse_repeats(w, 0) == views(result@) + collapse_repeats(w, i as int),
        decreases n - i,
    {
        let k = find_repeat(&words, i);
        let ghost before = views(result@);
        if k >= 2 {
            push_words(&mut result, &words, i, i + k);
            assert(before + (w.subrange(i as int, i + k) + collapse_repeats(w, i + 2 * k)) =~= (before
                + w.subrange(i as int, i + k)) + collapse_repeats(w, i + 2 * k));
            i = i + 2 * k;
        } else {
            result.push(words[i].clone());
            assert(views(result@) =~= before.push(w[i as int]));
            assert(before + (seq![w[i as int]] + collapse_repeats(w, i + 1)) =~= before.push(
                w[i as int],
            ) + collapse_repeats(w, i + 1));
            i = i + 1;
        }
    }
    assert(views(result@) + seq![] =~= views(result@));
    let joined = join_with_spaces(&result);
    string_of(&joined)
}

/// Upper-cases the first character when it is a lowercase letter.
fn capitalize_first(cs: &Vec<char>) -> (r: Vec<char>)
    ensures
        r@ == capitalized(cs@),
{
    if cs.len() > 0 && is_lowercase(cs[0]) {
        let upper = to_uppercase(cs[0]);
        let mut out = chars_of(upper.as_str());
        let mut j: usize = 1;
        let ghost head = out@;
        while j < cs.len()
            invariant
                1 <= j <= cs@.len(),
                out@ == head + cs@.subrange(1, j as int),
            decreases cs@.len() - j,
        {
            out.push(cs[j]);
            j = j + 1;
            assert(out@ =~= head + cs@.subrange(1, j as int));
        }
        assert(cs@.subrange(1, cs@.len() as int) =~= cs@.drop_first());
        out
    } else {
        let mut out: Vec<char> = Vec::new();
        push_all(&mut out, cs);
        assert(out@ =~= cs@);
        out
    }
}

/// Cleans up a recognised text: drops marker words, reduces white space to
/// single spaces between words, capitalises the first letter and keeps
/// repeated runs of words once.
pub fn process_text(text: &str) -> (r: String)
    ensures
        r@ == processed(text@),
{
    let unmarked = remove_non_speech_markers(text);
    let cs = chars_of(unmarked.as_str());
    let single = collapse_runs(&cs);
    let capital = capitalize_first(&single);
    let s = string_of(&capital);
    remove_repetitions(s.as_str())
}

} // verus!
