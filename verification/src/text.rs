//! Characters, tokens and lines: the text layer under paths, dependency
//! files and tool output.
//!
//! Every contract speaks of a string through its view, the sequence of its
//! characters.

use vstd::prelude::*;

verus! {

/// Whether `c` has the Unicode `White_Space` property.
pub open spec fn is_whitespace(c: char) -> bool {
    ||| ('\u{9}' <= c && c <= '\u{D}')
    ||| c == ' '
    ||| c == '\u{85}'
    ||| c == '\u{A0}'
    ||| c == '\u{1680}'
    ||| ('\u{2000}' <= c && c <= '\u{200A}')
    ||| c == '\u{2028}'
    ||| c == '\u{2029}'
    ||| c == '\u{202F}'
    ||| c == '\u{205F}'
    ||| c == '\u{3000}'
}

/// Whether `c` is one of the ten decimal digits.
pub open spec fn is_decimal_digit(c: char) -> bool {
    '0' <= c && c <= '9'
}

/// Length of the longest prefix of `s` that holds no whitespace.
pub open spec fn word_len(s: Seq<char>) -> nat
    decreases s.len(),
{
    if s.len() == 0 || is_whitespace(s[0]) {
        0
    } else {
        1 + word_len(s.skip(1))
    }
}

/// The maximal runs of non-whitespace characters of `s`, from left to right.
pub open spec fn words(s: Seq<char>) -> Seq<Seq<char>>
    decreases s.len(),
{
    if s.len() == 0 {
        Seq::empty()
    } else if is_whitespace(s[0]) {
        words(s.skip(1))
    } else {
        let n = word_len(s) as int;
        if 0 < n <= s.len() {
            seq![s.take(n)] + words(s.skip(n))
        } else {
            Seq::empty()
        }
    }
}

/// Length of the first line of `s`: the characters before its first line feed.
pub open spec fn line_len(s: Seq<char>) -> nat
    decreases s.len(),
{
    if s.len() == 0 || s[0] == '\n' {
        0
    } else {
        1 + line_len(s.skip(1))
    }
}

/// The pieces of `s` between line feeds. A text that ends in a line feed has
/// no empty piece after it, and the empty text has no piece at all.
pub open spec fn lines(s: Seq<char>) -> Seq<Seq<char>>
    decreases s.len(),
{
    if s.len() == 0 {
        Seq::empty()
    } else {
        let n = line_len(s) as int;
        if n < s.len() {
            seq![s.take(n)] + lines(s.skip(n + 1))
        } else {
            seq![s]
        }
    }
}

/// `parts` written one after another with `sep` between neighbours.
pub open spec fn joined(parts: Seq<Seq<char>>, sep: Seq<char>) -> Seq<char>
    decreases parts.len(),
{
    if parts.len() == 0 {
        Seq::empty()
    } else if parts.len() == 1 {
        parts[0]
    } else {
        joined(parts.drop_last(), sep) + sep + parts.last()
    }
}

/// A word is never longer than the text it starts.
pub proof fn lemma_word_len_bound(s: Seq<char>)
    ensures
        word_len(s) <= s.len(),
        forall|k: int| 0 <= k < word_len(s) ==> !is_whitespace(#[trigger] s[k]),
        word_len(s) < s.len() ==> is_whitespace(s[word_len(s) as int]),
    decreases s.len(),
{
    if s.len() == 0 || is_whitespace(s[0]) {
    } else {
        let t = s.skip(1);
        lemma_word_len_bound(t);
        assert forall|k: int| 0 <= k < word_len(s) implies !is_whitespace(#[trigger] s[k]) by {
            if k > 0 {
                assert(s[k] == t[k - 1]);
            }
        }
        if word_len(s) < s.len() {
            assert(s[word_len(s) as int] == t[word_len(t) as int]);
        }
    }
}

/// A run of `n` non-whitespace characters that is followed by whitespace, or
/// by the end of the text, is the first word.
pub proof fn lemma_word_len_is(s: Seq<char>, n: int)
    requires
        0 <= n <= s.len(),
        forall|k: int| 0 <= k < n ==> !is_whitespace(#[trigger] s[k]),
        n < s.len() ==> is_whitespace(s[n]),
    ensures
        word_len(s) == n,
    decreases n,
{
    if n == 0 {
    } else {
        let t = s.skip(1);
        assert(!is_whitespace(s[0]));
        assert forall|k: int| 0 <= k < n - 1 implies !is_whitespace(#[trigger] t[k]) by {
            assert(t[k] == s[k + 1]);
        }
        if n - 1 < t.len() {
            assert(t[n - 1] == s[n]);
        }
        lemma_word_len_is(t, n - 1);
    }
}

/// The first line of a text ends before its first line feed.
pub proof fn lemma_line_len_is(s: Seq<char>, n: int)
    requires
        0 <= n <= s.len(),
        forall|k: int| 0 <= k < n ==> #[trigger] s[k] != '\n',
        n < s.len() ==> s[n] == '\n',
    ensures
        line_len(s) == n,
    decreases n,
{
    if n == 0 {
    } else {
        let t = s.skip(1);
        assert(s[0] != '\n');
        assert forall|k: int| 0 <= k < n - 1 implies #[trigger] t[k] != '\n' by {
            assert(t[k] == s[k + 1]);
        }
        if n - 1 < t.len() {
            assert(t[n - 1] == s[n]);
        }
        lemma_line_len_is(t, n - 1);
    }
}

/// Whether `w` is non-empty and free of whitespace.
pub open spec fn is_word(w: Seq<char>) -> bool {
    w.len() > 0 && forall|k: int| 0 <= k < w.len() ==> !is_whitespace(#[trigger] w[k])
}

/// Every element of `words(s)` is non-empty and free of whitespace.
pub proof fn lemma_words_are_words(s: Seq<char>)
    ensures
        forall|i: int| 0 <= i < words(s).len() ==> is_word(#[trigger] words(s)[i]),
    decreases s.len(),
{
    if s.len() == 0 {
        assert(words(s).len() == 0);
    } else if is_whitespace(s[0]) {
        lemma_words_are_words(s.skip(1));
        assert(words(s) == words(s.skip(1)));
    } else {
        lemma_word_len_bound(s);
        let n = word_len(s) as int;
        let rest = words(s.skip(n));
        lemma_words_are_words(s.skip(n));
        assert(n >= 1);
        assert(words(s) == seq![s.take(n)] + rest);
        assert forall|i: int| 0 <= i < words(s).len() implies is_word(#[trigger] words(s)[i]) by {
            if i == 0 {
                assert(words(s)[0] == s.take(n));
                assert forall|k: int| 0 <= k < n implies !is_whitespace(
                    #[trigger] s.take(n)[k],
                ) by {
                    assert(s.take(n)[k] == s[k]);
                }
            } else {
                assert(words(s)[i] == rest[i - 1]);
            }
        }
    }
}

/// Tells whether `c` has the Unicode `White_Space` property.
pub fn char_is_whitespace(c: char) -> (b: bool)
    ensures
        b == is_whitespace(c),
{
    ('\u{9}' <= c && c <= '\u{D}') || c == ' ' || c == '\u{85}' || c == '\u{A0}' || c
        == '\u{1680}' || ('\u{2000}' <= c && c <= '\u{200A}') || c == '\u{2028}' || c
        == '\u{2029}' || c == '\u{202F}' || c == '\u{205F}' || c == '\u{3000}'
}

/// Tells whether `c` is a decimal digit.
pub fn char_is_decimal_digit(c: char) -> (b: bool)
    ensures
        b == is_decimal_digit(c),
{
    '0' <= c && c <= '9'
}

/// The characters of `s`, one element each.
pub fn to_chars(s: &str) -> (out: Vec<char>)
    ensures
        out@ == s@,
{
    let mut out: Vec<char> = Vec::new();
    for c in it: s.chars()
        invariant
            out@ == it.seq().take(it.index()),
    {
        out.push(c);
    }
    out
}

/// The part `s[from..to]` of a text, counted in characters. `plain` says
/// that the text is known to be ASCII, where a part is found without a walk
/// through what comes before it.
pub fn part(s: &str, plain: bool, from: usize, to: usize) -> (out: String)
    requires
        from <= to <= s@.len(),
        plain ==> s.is_ascii(),
    ensures
        out@ == s@.subrange(from as int, to as int),
{
    if plain {
        s.substring_ascii(from, to).to_string()
    } else {
        s.substring_char(from, to).to_string()
    }
}

/// The part `s[from..to]` of a text, counted in characters.
pub fn substring(s: &str, from: usize, to: usize) -> (out: String)
    requires
        from <= to <= s@.len(),
    ensures
        out@ == s@.subrange(from as int, to as int),
{
    part(s, s.is_ascii(), from, to)
}

/// Whether two strings hold the same characters.
pub fn equal(a: &str, b: &str) -> (same: bool)
    ensures
        same == (a@ == b@),
{
    let x = to_chars(a);
    let y = to_chars(b);
    if x.len() != y.len() {
        return false;
    }
    let mut i: usize = 0;
    while i < x.len()
        invariant
            i <= x.len(),
            x.len() == y.len(),
            x@ == a@,
            y@ == b@,
            forall|k: int| 0 <= k < i ==> x@[k] == y@[k],
        decreases x.len() - i,
    {
        if x[i] != y[i] {
            return false;
        }
        i += 1;
    }
    assert(x@ =~= y@);
    true
}

/// `a` followed by `b`, as a new string.
pub fn concatenate(a: &str, b: &str) -> (out: String)
    ensures
        out@ == a@ + b@,
{
    let mut out = a.to_string();
    out.append(b);
    out
}

/// Splits `s` at whitespace and returns the words between, in order.
pub fn split_words(s: &str) -> (out: Vec<String>)
    ensures
        out.deep_view() == words(s@),
{
    let v = to_chars(s);
    let plain = s.is_ascii();
    let mut out: Vec<String> = Vec::new();
    let mut i: usize = 0;
    proof {
        assert(v@.skip(0) =~= v@);
        assert(out.deep_view() =~= Seq::<Seq<char>>::empty());
    }
    while i < v.len()
        invariant
            i <= v.len(),
            v@ == s@,
            plain ==> s.is_ascii(),
            out.deep_view() + words(v@.skip(i as int)) == words(v@),
        decreases v.len() - i,
    {
        let ghost rest = v@.skip(i as int);
        if char_is_whitespace(v[i]) {
            proof {
                assert(rest.skip(1) =~= v@.skip(i + 1));
            }
            i += 1;
        } else {
            let start = i;
            let mut j: usize = i + 1;
            while j < v.len() && !char_is_whitespace(v[j])
                invariant
                    start < j <= v.len(),
                    forall|k: int| start <= k < j ==> !is_whitespace(#[trigger] v@[k]),
                decreases v.len() - j,
            {
                j += 1;
            }
            let word = part(s, plain, start, j);
            proof {
                let n = j - start;
                assert forall|k: int| 0 <= k < n implies !is_whitespace(#[trigger] rest[k]) by {
                    assert(rest[k] == v@[start + k]);
                }
                lemma_word_len_is(rest, n);
                assert(rest.take(n) =~= v@.subrange(start as int, j as int));
                assert(rest.skip(n) =~= v@.skip(j as int));
                assert(words(rest) == seq![word@] + words(v@.skip(j as int)));
            }
            let ghost before = out.deep_view();
            out.push(word);
            proof {
                assert(out.deep_view() =~= before + seq![word@]);
                assert(out.deep_view() + words(v@.skip(j as int)) =~= before + words(rest));
            }
            i = j;
        }
    }
    proof {
        assert(words(v@.skip(i as int)) =~= Seq::<Seq<char>>::empty());
        assert(out.deep_view() =~= out.deep_view() + Seq::<Seq<char>>::empty());
    }
    out
}

/// Splits `s` at line feeds and returns the lines, in order.
pub fn split_lines(s: &str) -> (out: Vec<String>)
    ensures
        out.deep_view() == lines(s@),
{
    let v = to_chars(s);
    let plain = s.is_ascii();
    let mut out: Vec<String> = Vec::new();
    let mut i: usize = 0;
    proof {
        assert(v@.skip(0) =~= v@);
        assert(out.deep_view() =~= Seq::<Seq<char>>::empty());
    }
    while i < v.len()
        invariant
            i <= v.len(),
            v@ == s@,
            plain ==> s.is_ascii(),
            out.deep_view() + lines(v@.skip(i as int)) == lines(v@),
        decreases v.len() - i,
    {
        let ghost rest = v@.skip(i as int);
        let start = i;
        let mut j: usize = i;
        while j < v.len() && v[j] != '\n'
            invariant
                start <= j <= v.len(),
                forall|k: int| start <= k < j ==> #[trigger] v@[k] != '\n',
            decreases v.len() - j,
        {
            j += 1;
        }
        let line = part(s, plain, start, j);
        let next = if j < v.len() {
            j + 1
        } else {
            j
        };
        proof {
            let n = j - start;
            assert forall|k: int| 0 <= k < n implies #[trigger] rest[k] != '\n' by {
                assert(rest[k] == v@[start + k]);
            }
            lemma_line_len_is(rest, n);
            assert(rest.take(n) =~= v@.subrange(start as int, j as int));
            if j < v.len() {
                assert(rest.skip(n + 1) =~= v@.skip(next as int));
            } else {
                assert(rest.take(n) =~= rest);
                assert(lines(v@.skip(next as int)) =~= Seq::<Seq<char>>::empty());
            }
            assert(lines(rest) =~= seq![line@] + lines(v@.skip(next as int)));
        }
        let ghost before = out.deep_view();
        out.push(line);
        proof {
            assert(out.deep_view() =~= before + seq![line@]);
            assert(out.deep_view() + lines(v@.skip(next as int)) =~= before + lines(rest));
        }
        i = next;
    }
    proof {
        assert(lines(v@.skip(i as int)) =~= Seq::<Seq<char>>::empty());
        assert(out.deep_view() =~= out.deep_view() + Seq::<Seq<char>>::empty());
    }
    out
}

/// Writes `parts[from..]` one after another with `sep` between neighbours.
pub fn join_from(parts: &Vec<String>, from: usize, sep: &str) -> (out: String)
    requires
        from <= parts.len(),
    ensures
        out@ == joined(parts.deep_view().skip(from as int), sep@),
{
    let mut out = String::new();
    let mut i: usize = from;
    let ghost all = parts.deep_view();
    proof {
        assert(all.subrange(from as int, from as int) =~= Seq::<Seq<char>>::empty());
    }
    while i < parts.len()
        invariant
            from <= i <= parts.len(),
            all == parts.deep_view(),
            out@ == joined(all.subrange(from as int, i as int), sep@),
        decreases parts.len() - i,
    {
        let ghost done = all.subrange(from as int, i as int);
        let ghost next = all.subrange(from as int, i + 1);
        if i > from {
            out.append(sep);
        }
        out.append(parts[i].as_str());
        proof {
            assert(next.drop_last() =~= done);
            assert(next.last() == parts[i as int]@);
            if i == from {
                assert(out@ =~= next[0]);
            }
        }
        i += 1;
    }
    proof {
        assert(all.subrange(from as int, i as int) =~= all.skip(from as int));
    }
    out
}

/// A copy of a list of strings.
pub fn copy_strings(list: &Vec<String>) -> (out: Vec<String>)
    ensures
        out.deep_view() == list.deep_view(),
{
    let mut out: Vec<String> = Vec::new();
    let mut i: usize = 0;
    while i < list.len()
        invariant
            i <= list.len(),
            out.deep_view() == list.deep_view().take(i as int),
        decreases list.len() - i,
    {
        let ghost before = out.deep_view();
        out.push(list[i].clone());
        assert(out.deep_view() =~= before.push(list[i as int]@));
        assert(list.deep_view().take(i + 1) =~= before.push(list[i as int]@));
        i += 1;
    }
    assert(list.deep_view().take(list.len() as int) =~= list.deep_view());
    out
}

/// Adds a copy of `text` to the end of `list`.
pub fn push_text(list: &mut Vec<String>, text: &str)
    ensures
        final(list).deep_view() == old(list).deep_view().push(text@),
{
    let ghost before = list.deep_view();
    list.push(text.to_string());
    assert(list.deep_view() =~= before.push(text@));
}

/// Adds copies of the strings of `more` to the end of `list`.
pub fn push_all(list: &mut Vec<String>, more: &Vec<String>)
    ensures
        final(list).deep_view() == old(list).deep_view() + more.deep_view(),
{
    let ghost before = list.deep_view();
    let mut copy = copy_strings(more);
    list.append(&mut copy);
    assert(list.deep_view() =~= before + more.deep_view());
}

/// Each string of `items` with `prefix` put before it.
pub open spec fn with_prefix(prefix: Seq<char>, items: Seq<Seq<char>>) -> Seq<Seq<char>> {
    items.map_values(|item: Seq<char>| prefix + item)
}

/// Puts `prefix` before each string of `items`.
pub fn prefixed(prefix: &str, items: &Vec<String>) -> (out: Vec<String>)
    ensures
        out.deep_view() == with_prefix(prefix@, items.deep_view()),
{
    let ghost all = items.deep_view();
    let mut out: Vec<String> = Vec::new();
    let mut i: usize = 0;
    while i < items.len()
        invariant
            i <= items.len(),
            all == items.deep_view(),
            out.deep_view() == with_prefix(prefix@, all.take(i as int)),
        decreases items.len() - i,
    {
        let ghost before = out.deep_view();
        out.push(concatenate(prefix, items[i].as_str()));
        proof {
            assert(out.deep_view() =~= before.push(prefix@ + all[i as int]));
            assert(with_prefix(prefix@, all.take(i + 1)) =~= before.push(prefix@ + all[i as int]));
        }
        i += 1;
    }
    assert(all.take(i as int) =~= all);
    out
}

} // verus!
