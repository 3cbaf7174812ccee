//! Small text operations on pseudo-file paths and contents.
use vstd::prelude::*;

verus! {

/// `s` with every non-overlapping occurrence of `pat`, scanned from the
/// left, replaced by `with`.
pub open spec fn replace_all(s: Seq<char>, pat: Seq<char>, with: Seq<char>) -> Seq<char>
    decreases s.len(),
{
    if pat.len() == 0 || s.len() < pat.len() {
        s
    } else if s.subrange(0, pat.len() as int) == pat {
        with + replace_all(s.subrange(pat.len() as int, s.len() as int), pat, with)
    } else {
        seq![s[0]] + replace_all(s.drop_first(), pat, with)
    }
}

/// The text of a pseudo-file without the one trailing newline it may end with.
pub open spec fn reading_text(s: Seq<char>) -> Seq<char> {
    if s.len() > 0 && s.last() == '\n' {
        s.drop_last()
    } else {
        s
    }
}

/// Whether `pat` occurs in `s` at character position `i`.
pub fn occurs_at(s: &str, i: usize, pat: &str) -> (r: bool)
    requires
        i + pat@.len() <= s@.len(),
    ensures
        r == (s@.subrange(i as int, i + pat@.len()) == pat@),
{
    let m = pat.unicode_len();
    let n = s.unicode_len();
    let mut k: usize = 0;
    while k < m
        invariant
            m == pat@.len(),
            i + m <= s@.len(),
            n == s@.len(),
            k <= m,
            forall|j: int| 0 <= j < k ==> s@[i + j] == pat@[j],
        decreases m - k,
    {
        if s.get_char(i + k) != pat.get_char(k) {
            assert(s@.subrange(i as int, i + m)[k as int] != pat@[k as int]);
            return false;
        }
        k = k + 1;
    }
    assert(s@.subrange(i as int, i + m) =~= pat@);
    true
}

/// Replaces each occurrence of a non-empty `pat` in `s` by `with`, as
/// `str::replace` does.
pub fn replace(s: &str, pat: &str, with: &str) -> (r: String)
    requires
        pat@.len() > 0,
    ensures
        r@ == replace_all(s@, pat@, with@),
{
    let n = s.unicode_len();
    let m = pat.unicode_len();
    let mut out = String::new();
    let mut i: usize = 0;
    assert(s@.subrange(0, n as int) =~= s@);
    assert(out@ + replace_all(s@, pat@, with@) =~= replace_all(s@, pat@, with@));
    while i < n
        invariant
            n == s@.len(),
            m == pat@.len(),
            m > 0,
            i <= n,
            out@ + replace_all(s@.subrange(i as int, n as int), pat@, with@) == replace_all(
                s@,
                pat@,
                with@,
            ),
        decreases n - i,
    {
        let ghost rest = s@.subrange(i as int, n as int);
        if n - i >= m && occurs_at(s, i, pat) {
            assert(rest.subrange(0, m as int) =~= s@.subrange(i as int, i + m));
            assert(rest.subrange(m as int, rest.len() as int) =~= s@.subrange(i + m, n as int));
            out.append(with);
            assert(out@ + replace_all(s@.subrange(i + m, n as int), pat@, with@) =~= replace_all(
                s@,
                pat@,
                with@,
            ));
            i = i + m;
        } else {
            if n - i >= m {
                assert(rest.subrange(0, m as int) =~= s@.subrange(i as int, i + m));
            }
            let c = s.substring_char(i, i + 1);
            assert(rest.drop_first() =~= s@.subrange(i + 1, n as int));
            assert(c@ =~= seq![rest[0]]);
            if n - i < m {
                assert(replace_all(rest, pat@, with@) == rest);
                assert(replace_all(rest.drop_first(), pat@, with@) == rest.drop_first());
                assert(rest =~= c@ + rest.drop_first());
            }
            out.append(c);
            assert(out@ + replace_all(s@.subrange(i + 1, n as int), pat@, with@) =~= replace_all(
                s@,
                pat@,
                with@,
            ));
            i = i + 1;
        }
    }
    assert(s@.subrange(n as int, n as int) =~= Seq::<char>::empty());
    assert(out@ + Seq::<char>::empty() =~= out@);
    out
}

/// Drops the one trailing newline that the text of a pseudo-file ends with.
pub fn trim_newline(s: &str) -> (r: String)
    ensures
        r@ == reading_text(s@),
{
    let n = s.unicode_len();
    if n > 0 && s.get_char(n - 1) == '\n' {
        let t = s.substring_char(0, n - 1);
        assert(t@ =~= s@.drop_last());
        String::from_str(t)
    } else {
        String::from_str(s)
    }
}

pub open spec fn is_blank(c: char) -> bool {
    c == ' ' || c == '\t' || c == '\n' || c == '\r'
}

/// The maximal runs of non-blank characters of `s`, in order.
pub open spec fn words(s: Seq<char>) -> Seq<Seq<char>>
    decreases s.len(),
{
    if s.len() == 0 {
        Seq::empty()
    } else {
        let w = words(s.drop_last());
        let c = s.last();
        if is_blank(c) {
            w
        } else if s.len() > 1 && !is_blank(s[s.len() - 2]) {
            w.update(w.len() - 1, w.last().push(c))
        } else {
            w.push(seq![c])
        }
    }
}

/// Splits `s` at spaces, tabs, carriage returns and newlines, dropping empty
/// pieces.
pub fn split_words(s: &str) -> (r: Vec<String>)
    ensures
        r@.map_values(|w: String| w@) == words(s@),
{
    let n = s.unicode_len();
    let mut done: Vec<String> = Vec::new();
    let mut cur = String::new();
    let mut in_word = false;
    let mut i: usize = 0;
    while i < n
        invariant
            i <= n,
            n == s@.len(),
            in_word == (i > 0 && !is_blank(s@[i - 1])),
            (i > 0 && !is_blank(s@[i - 1])) ==> done@.map_values(|w: String| w@).push(cur@)
                == words(s@.take(i as int)),
            !(i > 0 && !is_blank(s@[i - 1])) ==> done@.map_values(|w: String| w@) == words(
                s@.take(i as int),
            ) && cur@ == Seq::<char>::empty(),
        decreases n - i,
    {
        let c = s.get_char(i);
        let ghost t = s@.take(i + 1);
        assert(t.drop_last() =~= s@.take(i as int));
        assert(t.last() == c);
        if c == ' ' || c == '\t' || c == '\n' || c == '\r' {
            if in_word {
                let ghost before = done@.map_values(|w: String| w@);
                let mut w = String::new();
                std::mem::swap(&mut w, &mut cur);
                done.push(w);
                assert(done@.map_values(|w: String| w@) =~= before.push(w@));
            }
            in_word = false;
        } else {
            let ch = s.substring_char(i, i + 1);
            assert(ch@ =~= seq![c]);
            if in_word {
                assert(t[t.len() - 2] == s@[i - 1]);
                let ghost dv = done@.map_values(|w: String| w@);
                let ghost oc = cur@;
                let ghost wv = words(s@.take(i as int));
                assert(wv == dv.push(oc));
                assert(wv.last() == oc);
                cur.append(ch);
                assert(done@.map_values(|w: String| w@) == dv);
                assert(cur@ =~= oc.push(c));
                assert(done@.map_values(|w: String| w@).push(cur@) =~= wv.update(
                    wv.len() - 1,
                    wv.last().push(c),
                ));
            } else {
                if i > 0 {
                    assert(t[t.len() - 2] == s@[i - 1]);
                }
                cur.append(ch);
                assert(cur@ =~= seq![c]);
            }
            in_word = true;
        }
        i = i + 1;
    }
    assert(s@.take(n as int) =~= s@);
    if in_word {
        let ghost before = done@.map_values(|w: String| w@);
        done.push(cur);
        assert(done@.map_values(|w: String| w@) =~= before.push(done@[done@.len() - 1]@));
    }
    done
}

} // verus!
