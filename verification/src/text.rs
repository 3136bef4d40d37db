use vstd::prelude::*;
use vstd::string::*;

verus! {

/// The contents of a list of character vectors.
pub open spec fn views_of(w: Seq<Vec<char>>) -> Seq<Seq<char>> {
    Seq::new(w.len(), |i: int| w[i]@)
}

/// Characters that separate words.
pub open spec fn is_space(c: char) -> bool {
    c == ' ' || c == '\t' || c == '\n' || c == '\r'
}

/// The list of words of `s` from position `i` on, given the word `cur` begun before
/// `i` and the words `acc` completed before it.
pub open spec fn split_from(s: Seq<char>, i: int, cur: Seq<char>, acc: Seq<Seq<char>>) -> Seq<
    Seq<char>,
>
    decreases s.len() - i,
{
    if i >= s.len() {
        if cur.len() > 0 {
            acc.push(cur)
        } else {
            acc
        }
    } else if is_space(s[i]) {
        split_from(s, i + 1, Seq::empty(), if cur.len() > 0 { acc.push(cur) } else { acc })
    } else {
        split_from(s, i + 1, cur.push(s[i]), acc)
    }
}

/// The words of `s`: its maximal runs of characters other than spaces, tabs and line
/// breaks, in order.
pub open spec fn words(s: Seq<char>) -> Seq<Seq<char>> {
    split_from(s, 0, Seq::empty(), Seq::empty())
}

/// The characters of a string.
pub fn chars_of(s: &str) -> (v: Vec<char>)
    ensures
        v@ == s@,
{
    let n = s.unicode_len();
    let mut v: Vec<char> = Vec::new();
    let mut i: usize = 0;
    while i < n
        invariant
            n == s@.len(),
            i <= n,
            v@ == s@.subrange(0, i as int),
        decreases n - i,
    {
        v.push(s.get_char(i));
        i = i + 1;
        assert(v@ =~= s@.subrange(0, i as int));
    }
    assert(v@ =~= s@);
    v
}

/// `String::from_iter`: the string made of the given characters, in order.
#[verifier::external_body]
pub(crate) fn string_from_chars(v: &Vec<char>) -> (s: String)
    ensures
        s@ == v@,
{
    String::from_iter(v.iter())
}

/// Splits `s` into its words.
pub fn split_words(s: &Vec<char>) -> (w: Vec<Vec<char>>)
    ensures
        views_of(w@) == words(s@),
{
    let mut acc: Vec<Vec<char>> = Vec::new();
    let mut cur: Vec<char> = Vec::new();
    let mut i: usize = 0;
    assert(views_of(acc@) =~= Seq::<Seq<char>>::empty());
    assert(cur@ =~= Seq::<char>::empty());
    while i < s.len()
        invariant
            i <= s.len(),
            words(s@) == split_from(s@, i as int, cur@, views_of(acc@)),
        decreases s.len() - i,
    {
        let c = s[i];
        if c == ' ' || c == '\t' || c == '\n' || c == '\r' {
            if cur.len() > 0 {
                let ghost before = views_of(acc@);
                acc.push(cur);
                assert(views_of(acc@) =~= before.push(cur@));
            }
            cur = Vec::new();
            assert(cur@ =~= Seq::<char>::empty());
        } else {
            cur.push(c);
        }
        i = i + 1;
    }
    if cur.len() > 0 {
        let ghost before = views_of(acc@);
        acc.push(cur);
        assert(views_of(acc@) =~= before.push(cur@));
    }
    acc
}

/// The character of a decimal digit.
pub open spec fn digit_char(n: int) -> char {
    (48 + n) as char
}

/// The character is a decimal digit.
pub open spec fn is_digit(c: char) -> bool {
    '0' <= c && c <= '9'
}

/// The value of a decimal digit character.
pub open spec fn digit_value(c: char) -> int {
    c as int - 48
}

/// The character of a decimal digit.
pub fn digit_to_char(n: u8) -> (c: char)
    requires
        n < 10,
    ensures
        c == digit_char(n as int),
        is_digit(c),
        digit_value(c) == n,
{
    (48u8 + n) as char
}

/// The value of a decimal digit character.
pub fn char_to_digit(c: char) -> (n: u8)
    requires
        is_digit(c),
    ensures
        n == digit_value(c),
        n < 10,
        digit_char(n as int) == c,
{
    (c as u32 - 48) as u8
}

} // verus!

verus! {

/// Tells whether the characters of `w` are those of `lit`.
pub fn word_is(w: &Vec<char>, lit: &str) -> (b: bool)
    ensures
        b == (w@ == lit@),
{
    let n = lit.unicode_len();
    if w.len() != n {
        return false;
    }
    let mut i: usize = 0;
    while i < n
        invariant
            n == lit@.len(),
            n == w@.len(),
            i <= n,
            forall|j: int| 0 <= j < i ==> w@[j] == lit@[j],
        decreases n - i,
    {
        if w[i] != lit.get_char(i) {
            return false;
        }
        i = i + 1;
    }
    assert(w@ =~= lit@);
    true
}

/// A list of strings as character sequences.
pub open spec fn string_views(v: Seq<String>) -> Seq<Seq<char>> {
    Seq::new(v.len(), |i: int| v[i]@)
}

} // verus!

verus! {

/// The words of `ws` joined by single spaces.
pub open spec fn join_spaced(ws: Seq<Seq<char>>) -> Seq<char>
    decreases ws.len(),
{
    if ws.len() <= 1 {
        if ws.len() == 1 {
            ws[0]
        } else {
            Seq::empty()
        }
    } else {
        ws[0] + seq![' '] + join_spaced(ws.skip(1))
    }
}

/// Each of `ws` is a word: nonempty and free of spaces.
pub open spec fn all_words(ws: Seq<Seq<char>>) -> bool {
    &&& forall|k: int| 0 <= k < ws.len() ==> (#[trigger] ws[k]).len() > 0
    &&& forall|k: int, j: int|
        0 <= k < ws.len() && 0 <= j < ws[k].len() ==> !is_space(#[trigger] ws[k][j])
}

proof fn lemma_split_skip_word(s: Seq<char>, i: int, n: int, cur: Seq<char>, acc: Seq<Seq<char>>)
    requires
        0 <= i,
        0 <= n,
        i + n <= s.len(),
        forall|j: int| i <= j < i + n ==> !is_space(#[trigger] s[j]),
    ensures
        split_from(s, i, cur, acc) == split_from(s, i + n, cur + s.subrange(i, i + n), acc),
    decreases n,
{
    if n == 0 {
        assert(cur + s.subrange(i, i) =~= cur);
    } else {
        lemma_split_skip_word(s, i + 1, n - 1, cur.push(s[i]), acc);
        assert(cur.push(s[i]) + s.subrange(i + 1, i + n) =~= cur + s.subrange(i, i + n));
    }
}

pub proof fn lemma_split_join(s: Seq<char>, i: int, acc: Seq<Seq<char>>, ws: Seq<Seq<char>>)
    requires
        0 <= i <= s.len(),
        ws.len() >= 1,
        all_words(ws),
        s.subrange(i, s.len() as int) == join_spaced(ws),
    ensures
        split_from(s, i, Seq::empty(), acc) == acc + ws,
    decreases ws.len(),
{
    let w0 = ws[0];
    let n = w0.len() as int;
    assert(ws[0].len() > 0);
    assert(forall|j: int| 0 <= j < w0.len() ==> !is_space(#[trigger] w0[j])) by {
        assert forall|j: int| 0 <= j < w0.len() implies !is_space(#[trigger] w0[j]) by {
            assert(!is_space(ws[0][j]));
        }
    }
    let rest = s.subrange(i, s.len() as int);
    if ws.len() == 1 {
        assert(rest =~= w0);
        assert forall|j: int| i <= j < i + n implies !is_space(#[trigger] s[j]) by {
            assert(s[j] == rest[j - i]);
        }
        lemma_split_skip_word(s, i, n, Seq::empty(), acc);
        assert(Seq::<char>::empty() + s.subrange(i, i + n) =~= w0);
        assert(acc + ws =~= acc.push(w0));
    } else {
        assert(rest =~= w0 + seq![' '] + join_spaced(ws.skip(1)));
        assert forall|j: int| i <= j < i + n implies !is_space(#[trigger] s[j]) by {
            assert(s[j] == rest[j - i]);
        }
        lemma_split_skip_word(s, i, n, Seq::empty(), acc);
        assert(Seq::<char>::empty() + s.subrange(i, i + n) =~= w0);
        assert(s[i + n] == rest[n]);
        assert(s[i + n] == ' ');
        let ws1 = ws.skip(1);
        assert(all_words(ws1)) by {
            assert forall|k: int| 0 <= k < ws1.len() implies (#[trigger] ws1[k]).len() > 0 by {
                assert(ws1[k] == ws[k + 1]);
            }
            assert forall|k: int, j: int|
                0 <= k < ws1.len() && 0 <= j < ws1[k].len() implies !is_space(#[trigger] ws1[k][j]) by {
                assert(ws1[k] == ws[k + 1]);
                assert(!is_space(ws[k + 1][j]));
            }
        }
        let tail = join_spaced(ws1);
        assert(rest.subrange(n + 1, rest.len() as int) =~= tail);
        assert(s.subrange(i + n + 1, s.len() as int) =~= rest.subrange(n + 1, rest.len() as int));
        lemma_split_join(s, i + n + 1, acc.push(w0), ws1);
        assert(acc.push(w0) + ws1 =~= acc + ws);
    }
}

/// Words joined by single spaces split back into the same words.
pub proof fn lemma_words_of_join(ws: Seq<Seq<char>>)
    requires
        ws.len() >= 1,
        all_words(ws),
    ensures
        words(join_spaced(ws)) == ws,
{
    let s = join_spaced(ws);
    assert(s.subrange(0, s.len() as int) =~= s);
    lemma_split_join(s, 0, Seq::empty(), ws);
    assert(Seq::<Seq<char>>::empty() + ws =~= ws);
}

} // verus!
