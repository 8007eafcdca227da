use vstd::prelude::*;

verus! {

/// What `str::trim` returns for a string.
pub uninterp spec fn trimmed(s: Seq<char>) -> Seq<char>;

/// Relies on `str::trim`: it removes leading and trailing whitespace and
/// returns a part of the string, so an empty string stays empty.
#[verifier::external_body]
fn trim(s: &str) -> (r: &str)
    ensures
        r@ == trimmed(s@),
        s@.len() == 0 ==> r@.len() == 0,
{
    s.trim()
}

/// A search string is blank when nothing is left of it once whitespace is
/// trimmed from both ends.
pub open spec fn blank(s: Seq<char>) -> bool {
    trimmed(s).len() == 0
}

/// Whether `s` holds only whitespace.
pub fn is_blank(s: &str) -> (r: bool)
    ensures
        r == blank(s@),
        s@.len() == 0 ==> r,
{
    let t = trim(s);
    t.unicode_len() == 0
}

/// The characters that a LIKE pattern treats specially: the two wildcards
/// and the escape character itself.
pub open spec fn is_like_special(c: char) -> bool {
    c == '%' || c == '_' || c == '\\'
}

/// How one character stands in a LIKE pattern that matches it literally.
pub open spec fn escaped_char(c: char) -> Seq<char> {
    if is_like_special(c) {
        seq!['\\', c]
    } else {
        seq![c]
    }
}

/// `s` with a backslash put before each special character, so that a LIKE
/// pattern matches each character of `s` literally.
pub open spec fn escaped(s: Seq<char>) -> Seq<char>
    decreases s.len(),
{
    if s.len() == 0 {
        Seq::empty()
    } else {
        escaped_char(s[0]) + escaped(s.drop_first())
    }
}

proof fn lemma_escaped_push(s: Seq<char>, c: char)
    ensures
        escaped(s.push(c)) == escaped(s) + escaped_char(c),
    decreases s.len(),
{
    if s.len() == 0 {
        assert(s.push(c).drop_first() =~= Seq::<char>::empty());
        assert(s.push(c)[0] == c);
        assert(escaped(s.push(c).drop_first()) =~= Seq::<char>::empty());
        assert(escaped(s.push(c)) =~= escaped_char(c));
    } else {
        assert(s.push(c).drop_first() =~= s.drop_first().push(c));
        lemma_escaped_push(s.drop_first(), c);
        assert(escaped(s.push(c)) =~= escaped(s) + escaped_char(c));
    }
}

/// The pattern that matches any text holding `s`: `s` escaped, between two
/// `%` wildcards.
pub open spec fn contains_pattern(s: Seq<char>) -> Seq<char> {
    seq!['%'] + escaped(s) + seq!['%']
}

/// Whether `text` matches the LIKE pattern `pat`: `%` stands for any run of
/// characters, `_` for any one character, a backslash makes the character
/// after it literal, and characters compare equal when `fold` maps them to
/// the same character. ILIKE is LIKE with the database's case folding as
/// `fold`.
pub open spec fn like_match(text: Seq<char>, pat: Seq<char>, fold: spec_fn(char) -> char) -> bool
    decreases pat.len(), text.len(),
{
    if pat.len() == 0 {
        text.len() == 0
    } else if pat[0] == '%' {
        like_match(text, pat.drop_first(), fold) || (text.len() > 0 && like_match(
            text.drop_first(),
            pat,
            fold,
        ))
    } else if text.len() == 0 {
        false
    } else if pat[0] == '_' {
        like_match(text.drop_first(), pat.drop_first(), fold)
    } else if pat[0] == '\\' && pat.len() >= 2 {
        fold(text[0]) == fold(pat[1]) && like_match(
            text.drop_first(),
            pat.subrange(2, pat.len() as int),
            fold,
        )
    } else {
        fold(text[0]) == fold(pat[0]) && like_match(text.drop_first(), pat.drop_first(), fold)
    }
}

/// Whether `q` stands in `text` from position `i`, comparing after `fold`.
pub open spec fn occurs_at(text: Seq<char>, q: Seq<char>, i: int, fold: spec_fn(char) -> char) -> bool {
    0 <= i && i + q.len() <= text.len() && forall|k: int|
        0 <= k < q.len() ==> fold(text[i + k]) == fold(#[trigger] q[k])
}

/// Whether `text` holds `q` as a substring, comparing after `fold`.
pub open spec fn contains_folded(text: Seq<char>, q: Seq<char>, fold: spec_fn(char) -> char) -> bool {
    exists|i: int| occurs_at(text, q, i, fold)
}

proof fn lemma_escaped_prefix(t: Seq<char>, q: Seq<char>, rest: Seq<char>, fold: spec_fn(char) -> char)
    ensures
        like_match(t, escaped(q) + rest, fold) == (occurs_at(t, q, 0, fold) && like_match(
            t.skip(q.len() as int),
            rest,
            fold,
        )),
    decreases q.len(),
{
    if q.len() == 0 {
        assert(escaped(q) + rest =~= rest);
        assert(t.skip(0) =~= t);
    } else {
        let c = q[0];
        let q_rest = q.drop_first();
        let pat_rest = escaped(q_rest) + rest;
        let pat = escaped_char(c) + pat_rest;
        assert(escaped(q) + rest =~= pat);
        if is_like_special(c) {
            assert(pat[0] == '\\' && pat[1] == c);
            assert(pat.subrange(2, pat.len() as int) =~= pat_rest);
        } else {
            assert(pat[0] == c);
            assert(pat.drop_first() =~= pat_rest);
        }
        if t.len() > 0 {
            let t_rest = t.drop_first();
            lemma_escaped_prefix(t_rest, q_rest, rest, fold);
            if q.len() <= t.len() {
                assert(t.skip(q.len() as int) =~= t_rest.skip(q_rest.len() as int));
            }
            if occurs_at(t, q, 0, fold) {
                assert(fold(t[0int + 0int]) == fold(q[0]));
                assert(t[0int + 0int] == t[0]);
                assert forall|k: int| 0 <= k < q_rest.len() implies fold(t_rest[0 + k]) == fold(
                    #[trigger] q_rest[k],
                ) by {
                    assert(fold(t[0 + (k + 1)]) == fold(q[k + 1]));
                    assert(t_rest[0 + k] == t[0 + (k + 1)]);
                }
                assert(occurs_at(t_rest, q_rest, 0, fold));
            }
            if fold(t[0]) == fold(c) && occurs_at(t_rest, q_rest, 0, fold) {
                assert forall|k: int| 0 <= k < q.len() implies fold(t[0 + k]) == fold(
                    #[trigger] q[k],
                ) by {
                    if k > 0 {
                        assert(fold(t_rest[0 + (k - 1)]) == fold(q_rest[k - 1]));
                        assert(t_rest[0 + (k - 1)] == t[0 + k]);
                    } else {
                        assert(t[0 + k] == t[0]);
                    }
                }
            }
        }
    }
}

proof fn lemma_leading_wildcard(t: Seq<char>, p: Seq<char>, fold: spec_fn(char) -> char)
    ensures
        like_match(t, seq!['%'] + p, fold) == exists|i: int|
            0 <= i <= t.len() && like_match(#[trigger] t.skip(i), p, fold),
    decreases t.len(),
{
    let pat = seq!['%'] + p;
    assert(pat[0] == '%');
    assert(pat.drop_first() =~= p);
    assert(t.skip(0) =~= t);
    if t.len() > 0 {
        lemma_leading_wildcard(t.drop_first(), p, fold);
    }
    if like_match(t, pat, fold) {
        if !like_match(t, p, fold) {
            let j = choose|j: int|
                0 <= j <= t.len() - 1 && like_match(#[trigger] t.drop_first().skip(j), p, fold);
            assert(t.skip(j + 1) =~= t.drop_first().skip(j));
        }
    }
    if exists|i: int| 0 <= i <= t.len() && like_match(#[trigger] t.skip(i), p, fold) {
        let i = choose|i: int| 0 <= i <= t.len() && like_match(#[trigger] t.skip(i), p, fold);
        if i > 0 {
            assert(t.skip(i) =~= t.drop_first().skip(i - 1));
        }
    }
}

/// The pattern of a search string matches exactly the texts that hold the
/// string, whatever case folding the database applies.
pub proof fn lemma_contains_pattern(text: Seq<char>, q: Seq<char>, fold: spec_fn(char) -> char)
    ensures
        like_match(text, contains_pattern(q), fold) == contains_folded(text, q, fold),
{
    let tail = escaped(q) + seq!['%'];
    assert(contains_pattern(q) =~= seq!['%'] + tail);
    lemma_leading_wildcard(text, tail, fold);
    assert forall|i: int| 0 <= i <= text.len() implies like_match(
        #[trigger] text.skip(i),
        tail,
        fold,
    ) == occurs_at(text, q, i, fold) by {
        let s = text.skip(i);
        lemma_escaped_prefix(s, q, seq!['%'], fold);
        if occurs_at(text, q, i, fold) {
            let r = s.skip(q.len() as int);
            lemma_leading_wildcard(r, Seq::empty(), fold);
            assert(seq!['%'] + Seq::<char>::empty() =~= seq!['%']);
            assert(r.skip(r.len() as int) =~= Seq::<char>::empty());
            assert forall|k: int| 0 <= k < q.len() implies fold(s[0 + k]) == fold(
                #[trigger] q[k],
            ) by {
                assert(s[0 + k] == text[i + k]);
            }
        }
        if occurs_at(s, q, 0, fold) {
            assert forall|k: int| 0 <= k < q.len() implies fold(text[i + k]) == fold(
                #[trigger] q[k],
            ) by {
                assert(s[0 + k] == text[i + k]);
            }
        }
    }
    if contains_folded(text, q, fold) {
        let i = choose|i: int| occurs_at(text, q, i, fold);
        assert(like_match(text.skip(i), tail, fold));
    }
}

/// Escapes the LIKE wildcards and the escape character in `s`.
pub fn escape_like(s: &str) -> (r: String)
    ensures
        r@ == escaped(s@),
{
    let n = s.unicode_len();
    let mut r = String::new();
    let mut i: usize = 0;
    while i < n
        invariant
            n == s@.len(),
            i <= n,
            r@ == escaped(s@.subrange(0, i as int)),
        decreases n - i,
    {
        let c = s.get_char(i);
        let one = s.substring_char(i, i + 1);
        proof {
            reveal_strlit("\\");
        }
        if c == '%' || c == '_' || c == '\\' {
            r.append("\\");
        }
        r.append(one);
        proof {
            assert(s@.subrange(0, i + 1 as int) =~= s@.subrange(0, i as int).push(c));
            lemma_escaped_push(s@.subrange(0, i as int), c);
            assert(one@ =~= seq![c]);
            assert(r@ =~= escaped(s@.subrange(0, i as int)) + escaped_char(c));
        }
        i = i + 1;
    }
    assert(s@.subrange(0, n as int) =~= s@);
    r
}

/// The LIKE pattern that matches any text holding `s` as a substring.
pub fn like_pattern(s: &str) -> (r: String)
    ensures
        r@ == contains_pattern(s@),
{
    proof {
        reveal_strlit("%");
    }
    let mut r = String::from_str("%");
    let e = escape_like(s);
    r.append(e.as_str());
    r.append("%");
    assert(r@ =~= contains_pattern(s@));
    r
}

/// The filter that the book list applies for a search string: none where it
/// is absent or blank, else the pattern of the whole string.
pub open spec fn filter_of(search: Option<String>) -> Option<Seq<char>> {
    match search {
        Some(q) => if blank(q@) {
            None
        } else {
            Some(contains_pattern(q@))
        },
        None => None,
    }
}

/// The characters of an optional string.
pub open spec fn view_of(s: Option<String>) -> Option<Seq<char>> {
    match s {
        Some(t) => Some(t@),
        None => None,
    }
}

/// The LIKE pattern to filter the book list by, if any.
pub fn search_filter(search: &Option<String>) -> (r: Option<String>)
    ensures
        view_of(r) == filter_of(*search),
        search matches Some(q) && q@.len() == 0 ==> r is None,
{
    match search {
        Some(q) => {
            if is_blank(q.as_str()) {
                None
            } else {
                Some(like_pattern(q.as_str()))
            }
        },
        None => None,
    }
}

} // verus!
