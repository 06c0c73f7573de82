use vstd::prelude::*;
use vstd::string::StrSliceExecFns;

verus! {

// Plain-text machinery shared by the command validator, the script reader and
// the running-id parser: whitespace classification, line/word splitting and
// trimming, each with a spec-level definition and an executable counterpart
// proved against it.

/// The whitespace characters this crate recognises when splitting words and
/// trimming: the Unicode `White_Space` set, the one `str::split_whitespace`
/// and `str::trim` go by.
pub open spec fn is_space_char(c: char) -> bool {
    ||| c == '\u{9}'  // tab
    ||| c == '\u{a}'  // line feed
    ||| c == '\u{b}'  // vertical tab
    ||| c == '\u{c}'  // form feed
    ||| c == '\u{d}'  // carriage return
    ||| c == ' '
    ||| c == '\u{85}'  // next line
    ||| c == '\u{a0}'  // no-break space
    ||| c == '\u{1680}'  // ogham space mark
    ||| ('\u{2000}' <= c && c <= '\u{200a}')  // en quad .. hair space
    ||| c == '\u{2028}'  // line separator
    ||| c == '\u{2029}'  // paragraph separator
    ||| c == '\u{202f}'  // narrow no-break space
    ||| c == '\u{205f}'  // medium mathematical space
    ||| c == '\u{3000}'  // ideographic space
}

/// Executable whitespace test, equal to `is_space_char`.
pub fn space_char(c: char) -> (r: bool)
    ensures
        r == is_space_char(c),
{
    c == '\u{9}' || c == '\u{a}' || c == '\u{b}' || c == '\u{c}' || c == '\u{d}' || c == ' '
        || c == '\u{85}' || c == '\u{a0}' || c == '\u{1680}' || ('\u{2000}' <= c && c
        <= '\u{200a}') || c == '\u{2028}' || c == '\u{2029}' || c == '\u{202f}' || c == '\u{205f}'
        || c == '\u{3000}'
}

/// Length of the leading run of non-space characters.
pub open spec fn word_len(s: Seq<char>) -> nat
    decreases s.len(),
{
    if s.len() == 0 || is_space_char(s[0]) {
        0
    } else {
        1 + word_len(s.skip(1))
    }
}

pub proof fn lemma_word_len_le(s: Seq<char>)
    ensures
        word_len(s) <= s.len(),
    decreases s.len(),
{
    if s.len() != 0 && !is_space_char(s[0]) {
        lemma_word_len_le(s.skip(1));
    }
}

/// The words of `s`: maximal runs of non-space characters, in order.
pub open spec fn split_words(s: Seq<char>) -> Seq<Seq<char>>
    decreases s.len() via split_words_decreases
{
    if s.len() == 0 {
        seq![]
    } else if is_space_char(s[0]) {
        split_words(s.skip(1))
    } else {
        seq![s.take(word_len(s) as int)] + split_words(s.skip(word_len(s) as int))
    }
}

#[via_fn]
proof fn split_words_decreases(s: Seq<char>) {
    if s.len() != 0 && !is_space_char(s[0]) {
        lemma_word_len_le(s);
    }
}

/// `word_len` of a sequence whose first `m` characters are non-space and whose
/// character `m`, if any, is a space, is exactly `m`.
pub proof fn lemma_word_len_exact(s: Seq<char>, m: int)
    requires
        0 <= m <= s.len(),
        forall|k: int| 0 <= k < m ==> !is_space_char(s[k]),
        m == s.len() || is_space_char(s[m]),
    ensures
        word_len(s) == m,
    decreases m,
{
    if m == 0 {
    } else {
        assert(!is_space_char(s[0]));
        lemma_word_len_exact(s.skip(1), m - 1);
    }
}

/// `s` with its leading space characters removed.
pub open spec fn trim_start_spec(s: Seq<char>) -> Seq<char>
    decreases s.len(),
{
    if s.len() == 0 || !is_space_char(s[0]) {
        s
    } else {
        trim_start_spec(s.skip(1))
    }
}

/// `s` with its trailing space characters removed.
pub open spec fn trim_end_spec(s: Seq<char>) -> Seq<char>
    decreases s.len(),
{
    if s.len() == 0 || !is_space_char(s.last()) {
        s
    } else {
        trim_end_spec(s.drop_last())
    }
}

/// `s` with leading and trailing space characters removed.
pub open spec fn trim_spec(s: Seq<char>) -> Seq<char> {
    trim_end_spec(trim_start_spec(s))
}

/// If the first `a` characters are spaces and character `a`, if any, is not,
/// trimming the start leaves exactly the suffix from `a`.
pub proof fn lemma_trim_start_exact(s: Seq<char>, a: int)
    requires
        0 <= a <= s.len(),
        forall|k: int| 0 <= k < a ==> is_space_char(s[k]),
        a == s.len() || !is_space_char(s[a]),
    ensures
        trim_start_spec(s) =~= s.skip(a),
    decreases a,
{
    if a == 0 {
    } else {
        lemma_trim_start_exact(s.skip(1), a - 1);
        assert(s.skip(1).skip(a - 1) =~= s.skip(a));
    }
}

/// If the characters from `b` on are spaces and character `b - 1`, if any, is
/// not, trimming the end leaves exactly the prefix up to `b`.
pub proof fn lemma_trim_end_exact(s: Seq<char>, b: int)
    requires
        0 <= b <= s.len(),
        forall|k: int| b <= k < s.len() ==> is_space_char(s[k]),
        b == 0 || !is_space_char(s[b - 1]),
    ensures
        trim_end_spec(s) =~= s.take(b),
    decreases s.len(),
{
    if b == s.len() {
        if s.len() == 0 {
        } else {
            assert(!is_space_char(s.last()));
            assert(s.take(b) =~= s);
        }
    } else {
        assert(is_space_char(s.last()));
        lemma_trim_end_exact(s.drop_last(), b);
        assert(s.drop_last().take(b) =~= s.take(b));
    }
}

/// Length of the leading run of characters before the first line feed.
pub open spec fn line_len(s: Seq<char>) -> nat
    decreases s.len(),
{
    if s.len() == 0 || s[0] == '\n' {
        0
    } else {
        1 + line_len(s.skip(1))
    }
}

pub proof fn lemma_line_len_le(s: Seq<char>)
    ensures
        line_len(s) <= s.len(),
    decreases s.len(),
{
    if s.len() != 0 && s[0] != '\n' {
        lemma_line_len_le(s.skip(1));
    }
}

/// `line_len` of a sequence whose first `m` characters are not line feeds and
/// whose character `m`, if any, is one, is exactly `m`.
pub proof fn lemma_line_len_exact(s: Seq<char>, m: int)
    requires
        0 <= m <= s.len(),
        forall|k: int| 0 <= k < m ==> s[k] != '\n',
        m == s.len() || s[m] == '\n',
    ensures
        line_len(s) == m,
    decreases m,
{
    if m == 0 {
    } else {
        lemma_line_len_exact(s.skip(1), m - 1);
    }
}

/// A line without its trailing carriage return, if it has one: lines split at
/// a `\r\n` ending do not keep the `\r`.
pub open spec fn strip_cr(l: Seq<char>) -> Seq<char> {
    if l.len() > 0 && l.last() == '\r' {
        l.drop_last()
    } else {
        l
    }
}

/// The lines of `s`, split at line feeds, each terminated line stripped of a
/// trailing carriage return; a final line terminator ends the last line
/// rather than opening an empty one.
pub open spec fn split_lines(s: Seq<char>) -> Seq<Seq<char>>
    decreases s.len() via split_lines_decreases
{
    if s.len() == 0 {
        seq![]
    } else {
        let n = line_len(s) as int;
        if n == s.len() {
            seq![s]
        } else {
            seq![strip_cr(s.take(n))] + split_lines(s.skip(n + 1))
        }
    }
}

#[via_fn]
proof fn split_lines_decreases(s: Seq<char>) {
    lemma_line_len_le(s);
}

/// A line that a command script ignores: its first non-space character is `#`.
pub open spec fn is_comment_line(l: Seq<char>) -> bool {
    trim_start_spec(l).len() > 0 && trim_start_spec(l)[0] == '#'
}

/// The given lines joined with single line feeds: the continuation of
/// `join_lines` after its first line.
pub open spec fn tail_join(ls: Seq<Seq<char>>) -> Seq<char>
    decreases ls.len(),
{
    if ls.len() == 0 {
        seq![]
    } else {
        seq!['\n'] + ls[0] + tail_join(ls.skip(1))
    }
}

/// The given lines joined with single line feeds.
pub open spec fn join_lines(ls: Seq<Seq<char>>) -> Seq<char> {
    if ls.len() == 0 {
        seq![]
    } else {
        ls[0] + tail_join(ls.skip(1))
    }
}

/// The lines a command script keeps: those that are not comment lines, in
/// order.
pub open spec fn kept_lines(ls: Seq<Seq<char>>) -> Seq<Seq<char>>
    decreases ls.len(),
{
    if ls.len() == 0 {
        seq![]
    } else {
        let rest = kept_lines(ls.drop_last());
        if is_comment_line(ls.last()) {
            rest
        } else {
            rest.push(ls.last())
        }
    }
}

/// The characters of `s`, as a vector.
pub fn str_chars(s: &str) -> (r: Vec<char>)
    ensures
        r@ == s@,
{
    let n = s.unicode_len();
    let mut r: Vec<char> = Vec::new();
    let mut i: usize = 0;
    while i < n
        invariant
            i <= n,
            n == s@.len(),
            r@ == s@.take(i as int),
        decreases n - i,
    {
        r.push(s.get_char(i));
        proof {
            assert(r@ =~= s@.take(i + 1));
        }
        i += 1;
    }
    proof {
        assert(s@.take(n as int) =~= s@);
    }
    r
}

/// Relies on `String`'s `FromIterator<char>` implementation: collecting an
/// iterator of characters yields the string of exactly those characters in
/// order.
#[verifier::external_body]
pub fn chars_to_string(v: &Vec<char>) -> (r: String)
    ensures
        r@ == v@,
{
    v.iter().collect()
}

/// Whether the characters of `w` are exactly those of `p`.
pub fn chars_eq_str(w: &Vec<char>, p: &str) -> (r: bool)
    ensures
        r == (w@ == p@),
{
    let n = p.unicode_len();
    if w.len() != n {
        proof {
            assert(w@ != p@);
        }
        return false;
    }
    let mut i: usize = 0;
    while i < n
        invariant
            i <= n,
            n == p@.len(),
            w@.len() == n,
            forall|k: int| 0 <= k < i ==> w@[k] == p@[k],
        decreases n - i,
    {
        if w[i] != p.get_char(i) {
            proof {
                assert(w@[i as int] != p@[i as int]);
            }
            return false;
        }
        i += 1;
    }
    proof {
        assert(w@ =~= p@);
    }
    true
}

/// Whether the characters of `p` are a prefix of `w`.
pub fn chars_start_with_str(w: &Vec<char>, p: &str) -> (r: bool)
    ensures
        r == p@.is_prefix_of(w@),
{
    let n = p.unicode_len();
    if w.len() < n {
        return false;
    }
    let mut i: usize = 0;
    while i < n
        invariant
            i <= n,
            n == p@.len(),
            n <= w@.len(),
            forall|k: int| 0 <= k < i ==> w@[k] == p@[k],
        decreases n - i,
    {
        if w[i] != p.get_char(i) {
            proof {
                assert(w@.subrange(0, p@.len() as int)[i as int] != p@[i as int]);
            }
            return false;
        }
        i += 1;
    }
    proof {
        assert(p@ =~= w@.subrange(0, p@.len() as int));
    }
    true
}

/// `s` without its leading and trailing space characters.
pub fn trim_str(s: &str) -> (r: String)
    ensures
        r@ == trim_spec(s@),
{
    let n = s.unicode_len();
    let mut a: usize = 0;
    while a < n && space_char(s.get_char(a))
        invariant
            a <= n,
            n == s@.len(),
            forall|k: int| 0 <= k < a ==> is_space_char(s@[k]),
        decreases n - a,
    {
        a += 1;
    }
    proof {
        lemma_trim_start_exact(s@, a as int);
    }
    let mut b: usize = n;
    while b > a && space_char(s.get_char(b - 1))
        invariant
            a <= b <= n,
            n == s@.len(),
            forall|k: int| b <= k < n ==> is_space_char(s@[k]),
        decreases b,
    {
        b -= 1;
    }
    proof {
        let t = s@.skip(a as int);
        lemma_trim_end_exact(t, b - a);
        assert(t.take(b - a) =~= s@.subrange(a as int, b as int));
    }
    let sub = s.substring_char(a, b);
    sub.to_owned()
}

/// The lines of `s`, each as its own vector, in order.
pub fn split_lines_exec(s: &Vec<char>) -> (r: Vec<Vec<char>>)
    ensures
        r.deep_view() == split_lines(s@),
{
    let mut r: Vec<Vec<char>> = Vec::new();
    let mut i: usize = 0;
    proof {
        assert(s@.skip(0) =~= s@);
        assert(r.deep_view() =~= Seq::<Seq<char>>::empty());
    }
    while i < s.len()
        invariant
            i <= s@.len(),
            r.deep_view() + split_lines(s@.skip(i as int)) =~= split_lines(s@),
        decreases s@.len() - i,
    {
        let ghost prev = r.deep_view();
        let start = i;
        let mut w: Vec<char> = Vec::new();
        while i < s.len() && s[i] != '\n'
            invariant
                start <= i <= s@.len(),
                w@ =~= s@.subrange(start as int, i as int),
                forall|k: int| start <= k < i ==> s@[k] != '\n',
            decreases s@.len() - i,
        {
            w.push(s[i]);
            proof {
                assert(w@ =~= s@.subrange(start as int, i + 1));
            }
            i += 1;
        }
        proof {
            let t = s@.skip(start as int);
            lemma_line_len_exact(t, i - start);
            assert(t.take(i - start) =~= s@.subrange(start as int, i as int));
        }
        if i < s.len() {
            // the line is terminated: drop a carriage return before the
            // line feed, and step past the terminator
            if w.len() > 0 && w[w.len() - 1] == '\r' {
                w.pop();
                proof {
                    assert(w@ =~= strip_cr(s@.subrange(start as int, i as int)));
                }
            }
            proof {
                let t = s@.skip(start as int);
                assert(t.skip(i - start + 1) =~= s@.skip(i as int + 1));
                assert(split_lines(t) =~= seq![w@] + split_lines(s@.skip(i as int + 1)));
            }
            i += 1;
        } else {
            proof {
                let t = s@.skip(start as int);
                assert(line_len(t) == t.len());
                assert(split_lines(t) =~= seq![w@] + split_lines(s@.skip(i as int)));
                assert(s@.skip(i as int) =~= Seq::<char>::empty());
            }
        }
        r.push(w);
        proof {
            assert(w.deep_view() =~= w@);
            assert(r.deep_view() =~~= prev.push(w@));
            assert(prev.push(w@) + split_lines(s@.skip(i as int)) =~= prev + (seq![w@]
                + split_lines(s@.skip(i as int))));
        }
    }
    proof {
        assert(s@.skip(s@.len() as int) =~= Seq::<char>::empty());
        assert(r.deep_view() + split_lines(s@.skip(s@.len() as int)) =~= r.deep_view());
    }
    r
}

/// The words of `s`, each as its own vector, in order.
pub fn split_words_exec(s: &Vec<char>) -> (r: Vec<Vec<char>>)
    ensures
        r.deep_view() == split_words(s@),
{
    let mut r: Vec<Vec<char>> = Vec::new();
    let mut i: usize = 0;
    proof {
        assert(s@.skip(0) =~= s@);
        assert(r.deep_view() =~= Seq::<Seq<char>>::empty());
    }
    while i < s.len()
        invariant
            i <= s@.len(),
            r.deep_view() + split_words(s@.skip(i as int)) =~= split_words(s@),
        decreases s@.len() - i,
    {
        if space_char(s[i]) {
            proof {
                assert(s@.skip(i as int).skip(1) =~= s@.skip(i as int + 1));
            }
            i += 1;
        } else {
            let ghost prev = r.deep_view();
            let start = i;
            let mut w: Vec<char> = Vec::new();
            while i < s.len() && !space_char(s[i])
                invariant
                    start <= i <= s@.len(),
                    w@ =~= s@.subrange(start as int, i as int),
                    forall|k: int| start <= k < i ==> !is_space_char(s@[k]),
                    !is_space_char(s@[start as int]) || start == i,
                decreases s@.len() - i,
            {
                w.push(s[i]);
                proof {
                    assert(w@ =~= s@.subrange(start as int, i + 1));
                }
                i += 1;
            }
            proof {
                let t = s@.skip(start as int);
                lemma_word_len_exact(t, i - start);
                assert(t.take(i - start) =~= s@.subrange(start as int, i as int));
                assert(t.skip(i - start) =~= s@.skip(i as int));
                assert(split_words(t) =~= seq![w@] + split_words(s@.skip(i as int)));
            }
            r.push(w);
            proof {
                assert(w.deep_view() =~= w@);
                assert(r.deep_view() =~~= prev.push(w@));
                assert(prev.push(w@) + split_words(s@.skip(i as int)) =~= prev + (seq![w@]
                    + split_words(s@.skip(i as int))));
            }
        }
    }
    proof {
        assert(s@.skip(s@.len() as int) =~= Seq::<char>::empty());
        assert(r.deep_view() + split_words(s@.skip(s@.len() as int)) =~= r.deep_view());
    }
    r
}

} // verus!
