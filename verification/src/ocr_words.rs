//! Matching the words read by OCR against the character's name.
use vstd::prelude::*;
use vstd::utf8::encode_utf8;
use crate::text::{append_str, chars_eq, chars_of, join_words, lowercase, to_lowercase};

verus! {

broadcast use vstd::string::group_string_axioms;

/// How alike two OCR words are. `Overlap { shared, total }` stands for the
/// ratio `shared / total` of the Jaccard index over character bigrams (a
/// score between 0 and 1, see `word_similarity`); `Identical` is 1 and
/// `Unrelated` is 0.
#[derive(Clone, Copy, Debug, PartialEq, Eq, Structural)]
pub enum Similarity {
    Identical,
    Unrelated,
    Overlap { shared: u128, total: u128 },
}

/// The set of pairs of neighbouring characters in `s`.
pub open spec fn bigrams(s: Seq<char>) -> Set<(char, char)> {
    Set::new(
        |p: (char, char)| exists|i: int| 0 <= i < s.len() - 1 && #[trigger] s[i] == p.0 && s[i + 1] == p.1,
    )
}

/// The bigram pairs that start before position `k`.
pub open spec fn bigrams_before(s: Seq<char>, k: int) -> Set<(char, char)> {
    Set::new(
        |p: (char, char)|
            exists|i: int| 0 <= i < k && i < s.len() - 1 && #[trigger] s[i] == p.0 && s[i + 1] == p.1,
    )
}

/// The similarity of two words, compared case-insensitively: identical texts
/// score 1; an empty text, a difference of more than two bytes in UTF-8 length,
/// or two texts without any bigram score 0; otherwise the score is the number of
/// bigrams they share over the number of bigrams either has.
pub open spec fn similarity(a: Seq<char>, b: Seq<char>) -> Similarity {
    let la = lowercase(a);
    let lb = lowercase(b);
    let na = encode_utf8(la).len() as int;
    let nb = encode_utf8(lb).len() as int;
    if la == lb {
        Similarity::Identical
    } else if la.len() == 0 || lb.len() == 0 {
        Similarity::Unrelated
    } else if na - nb > 2 || nb - na > 2 {
        Similarity::Unrelated
    } else if bigrams(la).len() == 0 && bigrams(lb).len() == 0 {
        Similarity::Unrelated
    } else {
        Similarity::Overlap {
            shared: bigrams(la).intersect(bigrams(lb)).len() as u128,
            total: (bigrams(la) + bigrams(lb)).len() as u128,
        }
    }
}

/// Whether a similarity reaches 0.4, the least score for a word to count as read.
pub open spec fn reaches_two_fifths(s: Similarity) -> bool {
    match s {
        Similarity::Identical => true,
        Similarity::Unrelated => false,
        Similarity::Overlap { shared, total } => 5 * shared >= 2 * total,
    }
}

fn pair_in(v: &Vec<(char, char)>, p: (char, char)) -> (b: bool)
    ensures
        b == v@.contains(p),
{
    let mut j: usize = 0;
    while j < v.len()
        invariant
            j <= v@.len(),
            forall|k: int| 0 <= k < j ==> v@[k] != p,
        decreases v.len() - j,
    {
        if v[j].0 == p.0 && v[j].1 == p.1 {
            assert(v@[j as int] == p);
            return true;
        }
        j = j + 1;
    }
    false
}

/// The bigrams of `cs`, each once, in order of first appearance.
fn distinct_bigrams(cs: &Vec<char>) -> (r: Vec<(char, char)>)
    ensures
        r@.no_duplicates(),
        r@.to_set() == bigrams(cs@),
        r@.len() <= cs@.len(),
{
    let mut r: Vec<(char, char)> = Vec::new();
    if cs.len() < 2 {
        assert(r@.to_set() =~= bigrams(cs@));
        return r;
    }
    let mut i: usize = 0;
    while i + 1 < cs.len()
        invariant
            i + 1 <= cs@.len(),
            r@.no_duplicates(),
            forall|q: (char, char)| r@.contains(q) <==> #[trigger] bigrams_before(cs@, i as int).contains(q),
            r@.len() <= i,
        decreases cs.len() - i,
    {
        let p = (cs[i], cs[i + 1]);
        let ghost before = r@;
        let found = pair_in(&r, p);
        if !found {
            r.push(p);
            proof {
                assert forall|a: int, b: int| 0 <= a < b < r@.len() implies r@[a] != r@[b] by {
                    if b == r@.len() - 1 {
                        assert(before.contains(before[a]));
                    }
                }
            }
        }
        proof {
            let s = cs@;
            assert forall|q: (char, char)|
                r@.contains(q) <==> #[trigger] bigrams_before(s, i + 1).contains(q) by {
                if bigrams_before(s, i + 1).contains(q) {
                    let k = choose|k: int|
                        0 <= k < i + 1 && k < s.len() - 1 && #[trigger] s[k] == q.0 && s[k + 1] == q.1;
                    if k < i {
                        assert(bigrams_before(s, i as int).contains(q));
                        assert(before.contains(q));
                        let k2 = choose|k2: int| 0 <= k2 < before.len() && before[k2] == q;
                        assert(r@[k2] == q);
                    } else {
                        assert(q == p);
                        if found {
                            assert(r@ == before);
                        } else {
                            assert(r@[r@.len() - 1] == p);
                        }
                    }
                }
                if r@.contains(q) {
                    let k = choose|k: int| 0 <= k < r@.len() && r@[k] == q;
                    if k < before.len() {
                        assert(before[k] == q);
                        assert(before.contains(q));
                        assert(bigrams_before(s, i as int).contains(q));
                    } else {
                        assert(q == p);
                        assert(s[i as int] == q.0 && s[i + 1] == q.1);
                    }
                }
            }
        }
        i = i + 1;
    }
    assert(r@.to_set() =~= bigrams(cs@)) by {
        assert forall|q: (char, char)| r@.to_set().contains(q) <==> bigrams(cs@).contains(q) by {
            assert(bigrams_before(cs@, i as int).contains(q) <==> bigrams(cs@).contains(q));
        }
    }
    r
}

fn count_shared(a: &Vec<(char, char)>, b: &Vec<(char, char)>) -> (n: usize)
    requires
        a@.no_duplicates(),
    ensures
        n == a@.to_set().intersect(b@.to_set()).len(),
        n <= a@.len(),
{
    let ghost mut common: Seq<(char, char)> = seq![];
    let mut n: usize = 0;
    let mut i: usize = 0;
    while i < a.len()
        invariant
            i <= a@.len(),
            a@.no_duplicates(),
            n == common.len(),
            n <= i,
            common.no_duplicates(),
            forall|q: (char, char)|
                #[trigger] common.contains(q) <==> (a@.take(i as int).contains(q) && b@.contains(q)),
        decreases a.len() - i,
    {
        let ghost old_common = common;
        let x = a[i];
        let found = pair_in(b, x);
        if found {
            proof {
                assert(!old_common.contains(x)) by {
                    if old_common.contains(x) {
                        let k = choose|k: int| 0 <= k < i && #[trigger] a@.take(i as int)[k] == x;
                        assert(a@[k] == a@[i as int]);
                    }
                }
                common = old_common.push(x);
                assert forall|u: int, v: int| 0 <= u < v < common.len() implies common[u] != common[v] by {
                    if v == common.len() - 1 {
                        assert(old_common.contains(old_common[u]));
                    }
                }
            }
            n = n + 1;
        }
        proof {
            assert(a@.take(i + 1) =~= a@.take(i as int).push(x));
            assert forall|q: (char, char)|
                #[trigger] common.contains(q) <==> (a@.take(i + 1).contains(q) && b@.contains(q)) by {
                if a@.take(i + 1).contains(q) && !a@.take(i as int).contains(q) {
                    let k = choose|k: int| 0 <= k < i + 1 && #[trigger] a@.take(i + 1)[k] == q;
                    if k < i {
                        assert(a@.take(i as int)[k] == q);
                    }
                    assert(q == x);
                    if b@.contains(q) {
                        assert(common[common.len() - 1] == x);
                    }
                }
                if common.contains(q) && !old_common.contains(q) {
                    assert(q == x);
                    assert(a@.take(i + 1)[i as int] == x);
                }
                if old_common.contains(q) {
                    let k = choose|k: int| 0 <= k < i && #[trigger] a@.take(i as int)[k] == q;
                    assert(a@.take(i + 1)[k] == q);
                    if common != old_common {
                        let k2 = choose|k2: int| 0 <= k2 < old_common.len() && old_common[k2] == q;
                        assert(common[k2] == q);
                    }
                }
            }
        }
        i = i + 1;
    }
    proof {
        assert(a@.take(a@.len() as int) =~= a@);
        common.unique_seq_to_set();
        assert(common.to_set() =~= a@.to_set().intersect(b@.to_set()));
    }
    n
}

/// How alike two OCR words are, compared case-insensitively (the Jaccard index of
/// their character bigrams, with the shortcuts described at `similarity`).
pub fn word_similarity(a: &str, b: &str) -> (r: Similarity)
    ensures
        r == similarity(a@, b@),
        r matches Similarity::Overlap { shared, total } ==> {
            &&& 0 < total
            &&& shared <= total
            &&& total <= 2 * usize::MAX
        },
{
    let la = to_lowercase(a);
    let lb = to_lowercase(b);
    let ca = chars_of(la.as_str());
    let cb = chars_of(lb.as_str());
    if chars_eq(ca.as_slice(), cb.as_slice()) {
        return Similarity::Identical;
    }
    if ca.len() == 0 || cb.len() == 0 {
        return Similarity::Unrelated;
    }
    let na = la.as_str().as_bytes().len();
    let nb = lb.as_str().as_bytes().len();
    let diff = if na >= nb { na - nb } else { nb - na };
    if diff > 2 {
        return Similarity::Unrelated;
    }
    let da = distinct_bigrams(&ca);
    let db = distinct_bigrams(&cb);
    proof {
        da@.unique_seq_to_set();
        db@.unique_seq_to_set();
    }
    if da.len() == 0 && db.len() == 0 {
        return Similarity::Unrelated;
    }
    let shared = count_shared(&da, &db);
    proof {
        let sa = da@.to_set();
        let sb = db@.to_set();
        vstd::set_lib::lemma_set_intersect_union_lens(sa, sb);
        vstd::set_lib::lemma_len_subset(sa.intersect(sb), sb);
    }
    let total: u128 = da.len() as u128 + db.len() as u128 - shared as u128;
    Similarity::Overlap { shared: shared as u128, total }
}

/// Whether the OCR words from `start` on read as the name words, one by one,
/// each with a similarity of at least 0.4.
pub open spec fn window_matches(ocr: Seq<String>, name: Seq<String>, start: int) -> bool {
    &&& 0 <= start
    &&& start + name.len() <= ocr.len()
    &&& forall|i: int|
        0 <= i < name.len() ==> reaches_two_fifths(#[trigger] similarity(ocr[start + i]@, name[i]@))
}

/// Finds the first run of consecutive OCR words that reads as the character
/// name, word by word. Returns where the run starts and the similarity of each
/// of its words to the corresponding name word; the caller averages those into
/// a score and boxes the matched words.
pub fn find_name_in_words(ocr_words: &Vec<String>, name_words: &Vec<String>) -> (r: Option<
    (usize, Vec<Similarity>),
>)
    ensures
        r is None <==> (name_words@.len() == 0 || ocr_words@.len() == 0 || forall|s: int|
            !#[trigger] window_matches(ocr_words@, name_words@, s)),
        r matches Some((start, sims)) ==> {
            &&& window_matches(ocr_words@, name_words@, start as int)
            &&& forall|s: int| 0 <= s < start ==> !#[trigger] window_matches(ocr_words@, name_words@, s)
            &&& sims@.len() == name_words@.len()
            &&& forall|i: int|
                0 <= i < sims@.len() ==> #[trigger] sims@[i] == similarity(
                    ocr_words@[start + i]@,
                    name_words@[i]@,
                )
        },
{
    let n = name_words.len();
    if n == 0 || ocr_words.len() == 0 {
        return None;
    }
    let mut start: usize = 0;
    assert(ocr_words@.len() == ocr_words.len());
    while start < ocr_words.len()
        invariant
            n == name_words@.len() > 0,
            start <= ocr_words@.len(),
            forall|s: int| 0 <= s < start ==> !#[trigger] window_matches(ocr_words@, name_words@, s),
        ensures
            start + n > ocr_words@.len(),
            forall|s: int| 0 <= s < start ==> !#[trigger] window_matches(ocr_words@, name_words@, s),
        decreases ocr_words.len() - start,
    {
        if n > ocr_words.len() - start {
            break;
        }
        let mut sims: Vec<Similarity> = Vec::new();
        let mut all_match = true;
        let mut i: usize = 0;
        while i < n
            invariant_except_break
                all_match,
            invariant
                n == name_words@.len(),
                start + n <= ocr_words@.len(),
                ocr_words@.len() <= usize::MAX,
                i <= n,
                sims@.len() == i,
                forall|k: int|
                    0 <= k < i ==> #[trigger] sims@[k] == similarity(
                        ocr_words@[start + k]@,
                        name_words@[k]@,
                    ),
                forall|k: int| 0 <= k < i ==> reaches_two_fifths(#[trigger] sims@[k]),
            ensures
                all_match ==> i == n,
                !all_match ==> i < n && !reaches_two_fifths(
                    similarity(ocr_words@[start + i]@, name_words@[i as int]@),
                ),
            decreases n - i,
        {
            let sim = word_similarity(ocr_words[start + i].as_str(), name_words[i].as_str());
            let enough = match sim {
                Similarity::Identical => true,
                Similarity::Unrelated => false,
                Similarity::Overlap { shared, total } => 5 * shared >= 2 * total,
            };
            if !enough {
                all_match = false;
                break;
            }
            sims.push(sim);
            i = i + 1;
        }
        if all_match {
            assert forall|k: int| 0 <= k < n implies reaches_two_fifths(
                #[trigger] similarity(ocr_words@[start + k]@, name_words@[k]@),
            ) by {
                assert(sims@[k] == similarity(ocr_words@[start + k]@, name_words@[k]@));
                assert(reaches_two_fifths(sims@[k]));
            }
            assert(window_matches(ocr_words@, name_words@, start as int));
            return Some((start, sims));
        }
        assert(!reaches_two_fifths(similarity(ocr_words@[start + i]@, name_words@[i as int]@)));
        assert(!window_matches(ocr_words@, name_words@, start as int));
        start = start + 1;
    }
    assert forall|s: int| !#[trigger] window_matches(ocr_words@, name_words@, s) by {
        if 0 <= s && s >= start {
            assert(s + n > ocr_words@.len());
        }
    }
    None
}

/// Comparing two words does not depend on their order: the Jaccard index of
/// their bigrams is symmetric, and so are the shortcuts before it.
pub proof fn word_similarity_is_symmetric(a: Seq<char>, b: Seq<char>)
    ensures
        similarity(a, b) == similarity(b, a),
{
    let ba = bigrams(lowercase(a));
    let bb = bigrams(lowercase(b));
    assert(ba.intersect(bb) =~= bb.intersect(ba));
    assert(ba + bb =~= bb + ba);
}

/// The `count` words from `start` on, as a sequence of texts.
pub open spec fn word_run(words: Seq<String>, start: int, count: int) -> Seq<Seq<char>> {
    Seq::new(count as nat, |i: int| words[start + i]@)
}

/// The text of a matched run of OCR words: the `count` words from `start` on,
/// joined with one space between neighbours.
pub fn joined_words(words: &Vec<String>, start: usize, count: usize) -> (r: String)
    requires
        start + count <= words@.len(),
    ensures
        r@ == join_words(word_run(words@, start as int, count as int)),
{
    let mut r = String::new();
    let mut k: usize = 0;
    while k < count
        invariant
            start + count <= words.len(),
            k <= count,
            r@ == join_words(word_run(words@, start as int, k as int)),
        decreases count - k,
    {
        let ghost before = word_run(words@, start as int, k as int);
        let ghost after = word_run(words@, start as int, k + 1);
        assert(after.drop_last() =~= before);
        if k > 0 {
            push_char_space(&mut r);
        }
        append_str(&mut r, words[start + k].as_str());
        k = k + 1;
        proof {
            if k == 1 {
                assert(r@ =~= after[0]);
            } else {
                assert(r@ =~= join_words(before) + seq![' '] + after.last());
            }
        }
    }
    r
}

fn push_char_space(s: &mut String)
    ensures
        final(s)@ == old(s)@ + seq![' '],
{
    crate::text::push_char(s, ' ');
    assert(s@ =~= old(s)@ + seq![' ']);
}

/// The shortcuts of the comparison, on the lowercased words: the same word is
/// identical; an empty word, or UTF-8 lengths more than two bytes apart, is
/// unrelated; otherwise the bigram overlap decides. A word counts as read from
/// a score of 0.4 = 2/5 on.
pub proof fn similarity_shortcuts(a: Seq<char>, b: Seq<char>, shared: u128, total: u128)
    ensures
        lowercase(a) == lowercase(b) ==> similarity(a, b) == Similarity::Identical,
        lowercase(a) != lowercase(b) && (lowercase(a).len() == 0 || lowercase(b).len() == 0) ==> similarity(a, b)
            == Similarity::Unrelated,
        lowercase(a) != lowercase(b) && (encode_utf8(lowercase(a)).len() > encode_utf8(lowercase(b)).len() + 2
            || encode_utf8(lowercase(b)).len() > encode_utf8(lowercase(a)).len() + 2) ==> similarity(a, b)
            == Similarity::Unrelated,
        reaches_two_fifths(Similarity::Identical),
        !reaches_two_fifths(Similarity::Unrelated),
        reaches_two_fifths(Similarity::Overlap { shared, total }) <==> 5 * shared >= 2 * total,
{
}

/// The bigrams of a word are exactly the pairs of neighbouring characters.
pub proof fn bigrams_are_neighbouring_pairs(s: Seq<char>)
    ensures
        forall|i: int| 0 <= i < s.len() - 1 ==> #[trigger] bigrams(s).contains((s[i], s[i + 1])),
        forall|p: (char, char)|
            #[trigger] bigrams(s).contains(p) ==> exists|i: int| 0 <= i < s.len() - 1 && #[trigger] s[i] == p.0 && s[i + 1] == p.1,
{
}

} // verus!
