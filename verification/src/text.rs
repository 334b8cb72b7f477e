//! Characters and strings: white space, trimming, and the normalisation of
//! names before they are matched.
use vstd::prelude::*;

verus! {

broadcast use vstd::string::group_string_axioms;

/// The Unicode `White_Space` property: the characters that `char::is_whitespace`
/// accepts, and that `str::trim` and `str::split_whitespace` cut on.
pub open spec fn white_space(c: char) -> bool {
    let u = c as u32;
    ||| 0x09 <= u <= 0x0d
    ||| u == 0x20
    ||| u == 0x85
    ||| u == 0xa0
    ||| u == 0x1680
    ||| 0x2000 <= u <= 0x200a
    ||| u == 0x2028
    ||| u == 0x2029
    ||| u == 0x202f
    ||| u == 0x205f
    ||| u == 0x3000
}

/// Whether `c` is white space in the Unicode sense.
pub fn is_whitespace(c: char) -> (b: bool)
    ensures
        b == white_space(c),
{
    let u = c as u32;
    (0x09 <= u && u <= 0x0d) || u == 0x20 || u == 0x85 || u == 0xa0 || u == 0x1680 || (0x2000
        <= u && u <= 0x200a) || u == 0x2028 || u == 0x2029 || u == 0x202f || u == 0x205f || u
        == 0x3000
}

/// What Unicode lowercasing (`str::to_lowercase`) makes of a text.
pub uninterp spec fn lowercase(text: Seq<char>) -> Seq<char>;

/// What Unicode uppercasing (`str::to_uppercase`) makes of a text.
pub uninterp spec fn uppercase(text: Seq<char>) -> Seq<char>;

/// Whether a character has the Unicode `Alphabetic` or `Numeric` property
/// (`char::is_alphanumeric`).
pub uninterp spec fn alphanumeric(c: char) -> bool;

/// Calls `str::to_lowercase`; the result is named `lowercase` of the input.
#[verifier::external_body]
pub(crate) fn to_lowercase(s: &str) -> (r: String)
    ensures
        r@ == lowercase(s@),
{
    s.to_lowercase()
}

/// Whether every character of `s` is ASCII.
pub open spec fn is_ascii_text(s: Seq<char>) -> bool {
    forall|i: int| 0 <= i < s.len() ==> (#[trigger] s[i] as u32) < 128
}

/// The ASCII uppercase form of a character: `a`..`z` become `A`..`Z`, every
/// other character stays.
pub open spec fn ascii_upper_char(c: char) -> char {
    if 'a' <= c && c <= 'z' {
        ((c as u32) - 32) as char
    } else {
        c
    }
}

/// The ASCII uppercase form of a text, character by character.
pub open spec fn ascii_uppercase(s: Seq<char>) -> Seq<char> {
    s.map_values(|c: char| ascii_upper_char(c))
}

/// The ASCII lowercase form of a character: `A`..`Z` become `a`..`z`, every
/// other character stays (what `str::to_ascii_lowercase` does to each).
pub open spec fn ascii_lower_char(c: char) -> char {
    if 'A' <= c && c <= 'Z' {
        ((c as u32) + 32) as char
    } else {
        c
    }
}

/// The ASCII lowercase form of a text, character by character.
pub open spec fn ascii_lowercase(s: Seq<char>) -> Seq<char> {
    s.map_values(|c: char| ascii_lower_char(c))
}

/// Calls `str::to_uppercase`; the result is named `uppercase` of the input.
/// On ASCII text the Unicode uppercase mapping that std applies turns `a`..`z`
/// into `A`..`Z` one for one and leaves every other ASCII character as it is.
#[verifier::external_body]
pub(crate) fn to_uppercase(s: &str) -> (r: String)
    ensures
        r@ == uppercase(s@),
        is_ascii_text(s@) ==> r@ == ascii_uppercase(s@),
{
    s.to_uppercase()
}

/// Calls `char::is_alphanumeric`; the result is named `alphanumeric`.
#[verifier::external_body]
pub(crate) fn is_alphanumeric(c: char) -> (b: bool)
    ensures
        b == alphanumeric(c),
{
    c.is_alphanumeric()
}

/// Calls `String::push`, which appends one character.
#[verifier::external_body]
pub(crate) fn push_char(s: &mut String, c: char)
    ensures
        final(s)@ == old(s)@.push(c),
{
    s.push(c)
}

/// Appends the characters of `t` to `s`.
pub fn append_str(s: &mut String, t: &str)
    ensures
        final(s)@ == old(s)@ + t@,
{
    let cs = chars_of(t);
    let ghost start = s@;
    let mut i: usize = 0;
    while i < cs.len()
        invariant
            i <= cs@.len(),
            cs@ == t@,
            s@ == start + cs@.take(i as int),
        decreases cs.len() - i,
    {
        push_char(s, cs[i]);
        i = i + 1;
        assert(s@ =~= start + cs@.take(i as int));
    }
    assert(cs@.take(cs.len() as int) =~= cs@);
}

/// The characters of `s`, in order.
pub fn chars_of(s: &str) -> (v: Vec<char>)
    ensures
        v@ == s@,
{
    let mut v: Vec<char> = Vec::new();
    for c in it: s.chars()
        invariant
            v@ == it.seq().take(it.index() as int),
            it.seq() == s@,
    {
        v.push(c);
    }
    v
}

/// A string holding exactly the characters of `v`.
pub fn string_of(v: &Vec<char>) -> (s: String)
    ensures
        s@ == v@,
{
    let mut s = String::new();
    let mut i: usize = 0;
    while i < v.len()
        invariant
            i <= v.len(),
            s@ == v@.take(i as int),
        decreases v.len() - i,
    {
        push_char(&mut s, v[i]);
        i = i + 1;
        assert(s@ =~= v@.take(i as int));
    }
    assert(v@.take(v.len() as int) =~= v@);
    s
}

/// Whether `v` holds exactly the characters of `w`.
pub fn chars_eq(v: &[char], w: &[char]) -> (b: bool)
    ensures
        b == (v@ == w@),
{
    if v.len() != w.len() {
        return false;
    }
    let mut i: usize = 0;
    while i < v.len()
        invariant
            i <= v.len(),
            v@.len() == w@.len(),
            forall|j: int| 0 <= j < i ==> v@[j] == w@[j],
        decreases v.len() - i,
    {
        if v[i] != w[i] {
            return false;
        }
        i = i + 1;
    }
    assert(v@ =~= w@);
    true
}

/// `s` without its leading white space.
pub open spec fn trim_start(s: Seq<char>) -> Seq<char>
    decreases s.len(),
{
    if s.len() > 0 && white_space(s[0]) {
        trim_start(s.drop_first())
    } else {
        s
    }
}

/// `s` without its trailing white space.
pub open spec fn trim_end(s: Seq<char>) -> Seq<char>
    decreases s.len(),
{
    if s.len() > 0 && white_space(s.last()) {
        trim_end(s.drop_last())
    } else {
        s
    }
}

/// `s` without leading and trailing white space, as `str::trim` gives it.
pub open spec fn trimmed(s: Seq<char>) -> Seq<char> {
    trim_end(trim_start(s))
}

/// Trimming keeps ASCII text ASCII.
pub(crate) proof fn lemma_trimmed_ascii(s: Seq<char>)
    requires
        is_ascii_text(s),
    ensures
        is_ascii_text(trimmed(s)),
{
    lemma_trim_start_ascii(s);
    lemma_trim_end_ascii(trim_start(s));
}

proof fn lemma_trim_start_ascii(s: Seq<char>)
    requires
        is_ascii_text(s),
    ensures
        is_ascii_text(trim_start(s)),
    decreases s.len(),
{
    if s.len() > 0 && white_space(s[0]) {
        assert(is_ascii_text(s.drop_first())) by {
            assert forall|i: int| 0 <= i < s.drop_first().len() implies (#[trigger] s.drop_first()[i] as u32) < 128 by {
                assert(s.drop_first()[i] == s[i + 1]);
            }
        }
        lemma_trim_start_ascii(s.drop_first());
    }
}

proof fn lemma_trim_end_ascii(s: Seq<char>)
    requires
        is_ascii_text(s),
    ensures
        is_ascii_text(trim_end(s)),
    decreases s.len(),
{
    if s.len() > 0 && white_space(s.last()) {
        assert(is_ascii_text(s.drop_last())) by {
            assert forall|i: int| 0 <= i < s.drop_last().len() implies (#[trigger] s.drop_last()[i] as u32) < 128 by {
                assert(s.drop_last()[i] == s[i]);
            }
        }
        lemma_trim_end_ascii(s.drop_last());
    }
}

/// ASCII uppercasing and trimming can be done in either order: no ASCII
/// letter is white space, and no white space changes case.
pub(crate) proof fn lemma_trim_ascii_uppercase(s: Seq<char>)
    requires
        is_ascii_text(s),
    ensures
        ascii_uppercase(trimmed(s)) == trimmed(ascii_uppercase(s)),
{
    lemma_trim_start_upper(s);
    lemma_trim_start_ascii(s);
    lemma_trim_end_upper(trim_start(s));
}

proof fn lemma_trim_start_upper(s: Seq<char>)
    requires
        is_ascii_text(s),
    ensures
        ascii_uppercase(trim_start(s)) == trim_start(ascii_uppercase(s)),
    decreases s.len(),
{
    let u = ascii_uppercase(s);
    if s.len() > 0 {
        assert(u[0] == ascii_upper_char(s[0]));
        assert((s[0] as u32) < 128);
        assert(white_space(u[0]) == white_space(s[0]));
        if white_space(s[0]) {
            assert(is_ascii_text(s.drop_first())) by {
                assert forall|i: int| 0 <= i < s.drop_first().len() implies (#[trigger] s.drop_first()[i] as u32) < 128 by {
                    assert(s.drop_first()[i] == s[i + 1]);
                }
            }
            assert(u.drop_first() =~= ascii_uppercase(s.drop_first()));
            lemma_trim_start_upper(s.drop_first());
        }
    } else {
        assert(u =~= s);
    }
}

proof fn lemma_trim_end_upper(s: Seq<char>)
    requires
        is_ascii_text(s),
    ensures
        ascii_uppercase(trim_end(s)) == trim_end(ascii_uppercase(s)),
    decreases s.len(),
{
    let u = ascii_uppercase(s);
    if s.len() > 0 {
        assert(u.last() == ascii_upper_char(s.last()));
        assert((s[s.len() - 1] as u32) < 128);
        assert(white_space(u.last()) == white_space(s.last()));
        if white_space(s.last()) {
            assert(is_ascii_text(s.drop_last())) by {
                assert forall|i: int| 0 <= i < s.drop_last().len() implies (#[trigger] s.drop_last()[i] as u32) < 128 by {
                    assert(s.drop_last()[i] == s[i]);
                }
            }
            assert(u.drop_last() =~= ascii_uppercase(s.drop_last()));
            lemma_trim_end_upper(s.drop_last());
        }
    } else {
        assert(u =~= s);
    }
}

proof fn lemma_trim_start_front(s: Seq<char>)
    ensures
        trim_start(s).len() > 0 ==> !white_space(trim_start(s)[0]),
    decreases s.len(),
{
    if s.len() > 0 && white_space(s[0]) {
        lemma_trim_start_front(s.drop_first());
    }
}

proof fn lemma_trim_end_prefix(s: Seq<char>)
    ensures
        trim_end(s).len() <= s.len(),
        trim_end(s) == s.take(trim_end(s).len() as int),
        trim_end(s).len() > 0 ==> !white_space(trim_end(s).last()),
    decreases s.len(),
{
    if s.len() > 0 && white_space(s.last()) {
        lemma_trim_end_prefix(s.drop_last());
        assert(s.drop_last().take(trim_end(s).len() as int) =~= s.take(trim_end(s).len() as int));
    } else {
        assert(s.take(s.len() as int) =~= s);
    }
}

/// Trimming twice is trimming once.
pub(crate) proof fn lemma_trimmed_twice(s: Seq<char>)
    ensures
        trimmed(trimmed(s)) == trimmed(s),
{
    let x = trim_start(s);
    let r = trim_end(x);
    lemma_trim_start_front(s);
    lemma_trim_end_prefix(x);
    if r.len() > 0 {
        assert(r[0] == x[0]);
    }
    assert(trim_start(r) == r);
    assert(trim_end(r) == r);
}

/// ASCII lowercasing keeps ASCII text ASCII and does not change its ASCII
/// uppercase form.
pub(crate) proof fn lemma_ascii_lowercase(s: Seq<char>)
    requires
        is_ascii_text(s),
    ensures
        is_ascii_text(ascii_lowercase(s)),
        ascii_uppercase(ascii_lowercase(s)) == ascii_uppercase(s),
{
    let l = ascii_lowercase(s);
    assert forall|i: int| 0 <= i < l.len() implies (#[trigger] l[i] as u32) < 128 by {
        assert((s[i] as u32) < 128);
    }
    assert(ascii_uppercase(l) =~= ascii_uppercase(s));
}

proof fn lemma_trim_start_skip(s: Seq<char>, i: int)
    requires
        0 <= i <= s.len(),
        forall|j: int| 0 <= j < i ==> white_space(s[j]),
    ensures
        trim_start(s) == trim_start(s.skip(i)),
    decreases i,
{
    if i > 0 {
        assert(s.skip(1) =~= s.drop_first());
        lemma_trim_start_skip(s.drop_first(), i - 1);
        assert(s.drop_first().skip(i - 1) =~= s.skip(i));
    } else {
        assert(s.skip(0) =~= s);
    }
}

proof fn lemma_trim_end_take(s: Seq<char>, k: int)
    requires
        0 <= k <= s.len(),
        forall|j: int| k <= j < s.len() ==> white_space(s[j]),
    ensures
        trim_end(s) == trim_end(s.take(k)),
    decreases s.len() - k,
{
    if k < s.len() {
        assert(s.take(s.len() - 1) =~= s.drop_last());
        lemma_trim_end_take(s.drop_last(), k);
        assert(s.drop_last().take(k) =~= s.take(k));
    } else {
        assert(s.take(k) =~= s);
    }
}

/// The characters of `s` without leading and trailing white space.
pub fn trim_chars(s: &Vec<char>) -> (r: Vec<char>)
    ensures
        r@ == trimmed(s@),
{
    let n = s.len();
    let mut start: usize = 0;
    while start < n && is_whitespace(s[start])
        invariant
            start <= n == s@.len(),
            forall|j: int| 0 <= j < start ==> white_space(s@[j]),
        decreases n - start,
    {
        start = start + 1;
    }
    proof {
        lemma_trim_start_skip(s@, start as int);
    }
    let ghost rest = s@.skip(start as int);
    assert(start < n ==> !white_space(rest[0]));
    assert(trim_start(rest) == rest);
    let mut end: usize = n;
    while end > start && is_whitespace(s[end - 1])
        invariant
            start <= end <= n == s@.len(),
            forall|j: int| end <= j < n ==> white_space(s@[j]),
        decreases end - start,
    {
        end = end - 1;
    }
    proof {
        lemma_trim_end_take(rest, end - start);
        let kept = rest.take(end - start);
        if end > start {
            assert(kept.last() == s@[end - 1]);
        } else {
            assert(kept.len() == 0);
        }
        assert(trim_end(kept) == kept);
    }
    let mut r: Vec<char> = Vec::new();
    let mut i: usize = start;
    while i < end
        invariant
            start <= i <= end <= n == s@.len(),
            r@ == s@.subrange(start as int, i as int),
        decreases end - i,
    {
        r.push(s[i]);
        i = i + 1;
        assert(r@ =~= s@.subrange(start as int, i as int));
    }
    assert(r@ =~= rest.take(end - start));
    r
}

/// The characters that survive the cleanup before name matching:
/// letters, digits and white space.
pub open spec fn kept_in_name(c: char) -> bool {
    alphanumeric(c) || white_space(c)
}

/// The characters of `s` that are letters, digits or white space, in order.
pub open spec fn name_chars(s: Seq<char>) -> Seq<char> {
    s.filter(|c: char| kept_in_name(c))
}

/// The maximal runs of non-white-space characters of `s`, in order
/// (what `str::split_whitespace` yields).
pub open spec fn words(s: Seq<char>) -> Seq<Seq<char>>
    decreases s.len(),
{
    if s.len() == 0 {
        seq![]
    } else {
        let before = words(s.drop_last());
        let c = s.last();
        if white_space(c) {
            before
        } else if s.len() >= 2 && !white_space(s[s.len() - 2]) {
            before.update(before.len() - 1, before.last().push(c))
        } else {
            before.push(seq![c])
        }
    }
}

/// The words joined with one space between neighbours.
pub open spec fn join_words(ws: Seq<Seq<char>>) -> Seq<char>
    decreases ws.len(),
{
    if ws.len() == 0 {
        seq![]
    } else if ws.len() == 1 {
        ws[0]
    } else {
        join_words(ws.drop_last()) + seq![' '] + ws.last()
    }
}

/// The words of a text once lowercased and stripped of everything but
/// letters, digits and white space.
pub open spec fn name_words(text: Seq<char>) -> Seq<Seq<char>> {
    words(name_chars(lowercase(text)))
}

/// A text reduced for comparison: lowercased, only letters, digits and
/// white space kept, runs of white space collapsed to one space, and no
/// white space at either end.
pub open spec fn normalized(text: Seq<char>) -> Seq<char> {
    join_words(name_words(text))
}

proof fn lemma_words_nonempty_when_last_is_word(s: Seq<char>)
    requires
        s.len() > 0,
        !white_space(s.last()),
    ensures
        words(s).len() > 0,
    decreases s.len(),
{
    if s.len() >= 2 && !white_space(s[s.len() - 2]) {
        lemma_words_nonempty_when_last_is_word(s.drop_last());
    }
}

proof fn lemma_join_extend_last(ws: Seq<Seq<char>>, c: char)
    requires
        ws.len() > 0,
    ensures
        join_words(ws.update(ws.len() - 1, ws.last().push(c))) == join_words(ws).push(c),
{
    let ws2 = ws.update(ws.len() - 1, ws.last().push(c));
    if ws.len() > 1 {
        assert(ws2.drop_last() =~= ws.drop_last());
        assert(join_words(ws2) =~= join_words(ws).push(c));
    }
}

proof fn lemma_join_push(ws: Seq<Seq<char>>, c: char)
    ensures
        join_words(ws.push(seq![c])) == if ws.len() == 0 {
            seq![c]
        } else {
            join_words(ws) + seq![' ', c]
        },
{
    let ws2 = ws.push(seq![c]);
    if ws.len() > 0 {
        assert(ws2.drop_last() =~= ws);
        assert(join_words(ws2) =~= join_words(ws) + seq![' ', c]);
    }
}

proof fn lemma_filter_push(s: Seq<char>, c: char)
    ensures
        name_chars(s.push(c)) == if kept_in_name(c) {
            name_chars(s).push(c)
        } else {
            name_chars(s)
        },
{
    reveal(Seq::filter);
    assert(s.push(c).drop_last() =~= s);
}

/// The words of `text` after lowercasing and dropping every character that is
/// not a letter, a digit or white space, together with those words joined by
/// single spaces.
fn normalized_parts(text: &str) -> (r: (Vec<Vec<char>>, Vec<char>))
    ensures
        r.0@.len() == name_words(text@).len(),
        forall|i: int| 0 <= i < r.0@.len() ==> #[trigger] r.0@[i]@ == name_words(text@)[i],
        r.1@ == normalized(text@),
{
    let lower = to_lowercase(text);
    let cs = chars_of(lower.as_str());
    let mut ws: Vec<Vec<char>> = Vec::new();
    let mut out: Vec<char> = Vec::new();
    let mut in_word = false;
    let mut i: usize = 0;
    while i < cs.len()
        invariant
            i <= cs@.len(),
            cs@ == lowercase(text@),
            ({
                let p = name_chars(cs@.take(i as int));
                &&& ws@.len() == words(p).len()
                &&& forall|k: int| 0 <= k < ws@.len() ==> #[trigger] ws@[k]@ == words(p)[k]
                &&& out@ == join_words(words(p))
                &&& in_word == (p.len() > 0 && !white_space(p.last()))
            }),
        decreases cs.len() - i,
    {
        let c = cs[i];
        let ghost p = name_chars(cs@.take(i as int));
        proof {
            assert(cs@.take(i + 1) =~= cs@.take(i as int).push(c));
            lemma_filter_push(cs@.take(i as int), c);
        }
        let keep = is_alphanumeric(c) || is_whitespace(c);
        if keep {
            let ghost p2 = p.push(c);
            assert(p2.drop_last() =~= p);
            if is_whitespace(c) {
                in_word = false;
            } else if in_word {
                proof {
                    assert(p2[p2.len() - 2] == p.last());
                    lemma_words_nonempty_when_last_is_word(p);
                    lemma_join_extend_last(words(p), c);
                }
                let last = ws.len() - 1;
                let mut w = ws.pop().unwrap();
                w.push(c);
                ws.push(w);
                out.push(c);
                proof {
                    let wp2 = words(p2);
                    assert(ws@.len() == wp2.len());
                    assert forall|k: int| 0 <= k < ws@.len() implies #[trigger] ws@[k]@ == wp2[k] by {
                        if k < last {
                        }
                    }
                }
            } else {
                proof {
                    lemma_join_push(words(p), c);
                    if p.len() > 0 {
                        assert(p2[p2.len() - 2] == p.last());
                    }
                }
                let mut w: Vec<char> = Vec::new();
                w.push(c);
                if ws.len() > 0 {
                    out.push(' ');
                }
                out.push(c);
                ws.push(w);
                in_word = true;
                proof {
                    let wp2 = words(p2);
                    assert(w@ =~= seq![c]);
                    assert(ws@.len() == wp2.len());
                    assert forall|k: int| 0 <= k < ws@.len() implies #[trigger] ws@[k]@ == wp2[k] by {
                    }
                    if ws@.len() > 1 {
                        assert(out@ =~= join_words(words(p)) + seq![' ', c]);
                    } else {
                        assert(out@ =~= seq![c]);
                    }
                }
            }
        }
        i = i + 1;
        proof {
            let pn = name_chars(cs@.take(i as int));
            if keep {
                assert(pn == p.push(c));
            } else {
                assert(pn == p);
            }
        }
    }
    assert(cs@.take(cs.len() as int) =~= cs@);
    (ws, out)
}

/// The text reduced for comparison: lowercased, only letters, digits and white
/// space kept, white space runs collapsed to one space, no white space at the ends.
pub fn normalize(text: &str) -> (r: String)
    ensures
        r@ == normalized(text@),
{
    let (_, out) = normalized_parts(text);
    string_of(&out)
}

/// The words of `normalize(text)`, each as a string.
pub fn normalized_words(text: &str) -> (r: Vec<String>)
    ensures
        r@.len() == name_words(text@).len(),
        forall|i: int| 0 <= i < r@.len() ==> #[trigger] r@[i]@ == name_words(text@)[i],
{
    let (ws, _) = normalized_parts(text);
    let mut r: Vec<String> = Vec::new();
    let mut i: usize = 0;
    while i < ws.len()
        invariant
            i <= ws@.len(),
            ws@.len() == name_words(text@).len(),
            forall|k: int| 0 <= k < ws@.len() ==> #[trigger] ws@[k]@ == name_words(text@)[k],
            r@.len() == i,
            forall|k: int| 0 <= k < i ==> #[trigger] r@[k]@ == name_words(text@)[k],
        decreases ws.len() - i,
    {
        let s = string_of(&ws[i]);
        r.push(s);
        i = i + 1;
    }
    r
}

/// A character that may stand in a word of a cleaned name: a letter or digit
/// that is not white space.
pub open spec fn word_char(c: char) -> bool {
    alphanumeric(c) && !white_space(c)
}

proof fn lemma_words_shape(s: Seq<char>)
    requires
        forall|i: int| 0 <= i < s.len() ==> kept_in_name(#[trigger] s[i]),
    ensures
        forall|k: int| 0 <= k < words(s).len() ==> (#[trigger] words(s)[k]).len() > 0,
        forall|k: int, j: int|
            0 <= k < words(s).len() && 0 <= j < words(s)[k].len() ==> word_char(#[trigger] words(s)[k][j]),
    decreases s.len(),
{
    if s.len() > 0 {
        let t = s.drop_last();
        assert forall|i: int| 0 <= i < t.len() implies kept_in_name(#[trigger] t[i]) by {
            assert(t[i] == s[i]);
        }
        lemma_words_shape(t);
        let before = words(t);
        let c = s.last();
        assert(kept_in_name(s[s.len() - 1]));
        if white_space(c) {
        } else if s.len() >= 2 && !white_space(s[s.len() - 2]) {
            assert(t.last() == s[s.len() - 2]);
            lemma_words_nonempty_when_last_is_word(t);
            let w = before.last().push(c);
            let after = before.update(before.len() - 1, w);
            assert(words(s) == after);
            assert forall|k: int, j: int| 0 <= k < after.len() && 0 <= j < after[k].len() implies word_char(
                #[trigger] after[k][j],
            ) by {
                if k == before.len() - 1 {
                    if j < before.last().len() {
                        assert(after[k][j] == before[k][j]);
                    }
                } else {
                    assert(after[k] == before[k]);
                }
            }
            assert forall|k: int| 0 <= k < after.len() implies (#[trigger] after[k]).len() > 0 by {
                if k != before.len() - 1 {
                    assert(after[k] == before[k]);
                }
            }
        } else {
            let after = before.push(seq![c]);
            assert(words(s) == after);
            assert forall|k: int, j: int| 0 <= k < after.len() && 0 <= j < after[k].len() implies word_char(
                #[trigger] after[k][j],
            ) by {
                if k < before.len() {
                    assert(after[k] == before[k]);
                }
            }
            assert forall|k: int| 0 <= k < after.len() implies (#[trigger] after[k]).len() > 0 by {
                if k < before.len() {
                    assert(after[k] == before[k]);
                }
            }
        }
    }
}

/// Whether a text is cleanly spaced: letters and digits and single spaces,
/// with no space at either end.
pub open spec fn cleanly_spaced(r: Seq<char>) -> bool {
    &&& forall|i: int| 0 <= i < r.len() ==> #[trigger] r[i] == ' ' || word_char(r[i])
    &&& r.len() > 0 ==> r[0] != ' ' && r.last() != ' '
    &&& forall|i: int| 0 <= i < r.len() - 1 ==> !(#[trigger] r[i] == ' ' && r[i + 1] == ' ')
}

proof fn lemma_join_shape(ws: Seq<Seq<char>>)
    requires
        forall|k: int| 0 <= k < ws.len() ==> (#[trigger] ws[k]).len() > 0,
        forall|k: int, j: int| 0 <= k < ws.len() && 0 <= j < ws[k].len() ==> word_char(#[trigger] ws[k][j]),
    ensures
        cleanly_spaced(join_words(ws)),
        ws.len() > 0 ==> join_words(ws).len() > 0,
    decreases ws.len(),
{
    assert(white_space(' '));
    if ws.len() == 1 {
        let w = ws[0];
        assert forall|i: int| 0 <= i < w.len() implies #[trigger] w[i] == ' ' || word_char(w[i]) by {
            assert(word_char(ws[0][i]));
        }
        assert(word_char(ws[0][0]));
        assert(word_char(ws[0][w.len() - 1]));
    } else if ws.len() > 1 {
        let p = ws.drop_last();
        assert forall|k: int| 0 <= k < p.len() implies (#[trigger] p[k]).len() > 0 by {
            assert(p[k] == ws[k]);
        }
        assert forall|k: int, j: int| 0 <= k < p.len() && 0 <= j < p[k].len() implies word_char(#[trigger] p[k][j]) by {
            assert(p[k] == ws[k]);
        }
        lemma_join_shape(p);
        let j = join_words(p);
        let w = ws.last();
        let r = join_words(ws);
        assert(r == j + seq![' '] + w);
        let n = j.len() as int;
        assert(w.len() > 0);
        assert forall|i: int| 0 <= i < w.len() implies word_char(#[trigger] w[i]) by {
            assert(word_char(ws[ws.len() - 1][i]));
        }
        assert forall|i: int| 0 <= i < r.len() implies #[trigger] r[i] == ' ' || word_char(r[i]) by {
            if i < n {
                assert(r[i] == j[i]);
            } else if i > n {
                assert(r[i] == w[i - n - 1]);
            }
        }
        assert(r[0] == j[0]);
        assert(r.last() == w.last());
        assert(word_char(w[w.len() - 1]));
        assert forall|i: int| 0 <= i < r.len() - 1 implies !(#[trigger] r[i] == ' ' && r[i + 1] == ' ') by {
            if i < n - 1 {
                assert(r[i] == j[i] && r[i + 1] == j[i + 1]);
            } else if i == n - 1 {
                assert(r[i] == j.last());
            } else if i == n {
                assert(r[i + 1] == w[0]);
                assert(word_char(w[0]));
            } else {
                assert(r[i] == w[i - n - 1]);
                assert(word_char(w[i - n - 1]));
            }
        }
    }
}

/// A cleaned name holds only letters, digits and single spaces between words,
/// with no space at either end; its words are non-empty runs of letters and
/// digits.
pub proof fn normalized_names_are_clean(text: Seq<char>)
    ensures
        cleanly_spaced(normalized(text)),
        forall|k: int| 0 <= k < name_words(text).len() ==> (#[trigger] name_words(text)[k]).len() > 0,
        forall|k: int, j: int|
            0 <= k < name_words(text).len() && 0 <= j < name_words(text)[k].len() ==> word_char(
                #[trigger] name_words(text)[k][j],
            ),
{
    broadcast use vstd::seq_lib::group_filter_ensures;

    let f = name_chars(lowercase(text));
    assert forall|i: int| 0 <= i < f.len() implies kept_in_name(#[trigger] f[i]) by {
        let p = |c: char| kept_in_name(c);
        assert(p(lowercase(text).filter(p)[i]));
    }
    lemma_words_shape(f);
    lemma_join_shape(words(f));
}

} // verus!
