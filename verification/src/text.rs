//! Small operations on text that the parsers of this crate share.
//!
//! Positions count characters, not bytes.

use vstd::prelude::*;

verus! {

broadcast use vstd::string::group_string_axioms;

/// The position of the first `c` in `s`, or the length of `s` where there is none.
pub open spec fn first_index_of(s: Seq<char>, c: char) -> int
    decreases s.len(),
{
    if s.len() == 0 {
        0
    } else if s[0] == c {
        0
    } else {
        1 + first_index_of(s.drop_first(), c)
    }
}

/// What stands before the first `c`; all of `s` where there is none.
pub open spec fn before(s: Seq<char>, c: char) -> Seq<char> {
    s.subrange(0, first_index_of(s, c))
}

/// What stands behind the first `c`, if there is one.
pub open spec fn after(s: Seq<char>, c: char) -> Option<Seq<char>> {
    let i = first_index_of(s, c);
    if i < s.len() {
        Some(s.subrange(i + 1, s.len() as int))
    } else {
        None
    }
}

/// Where the part behind the last `c` starts; 0 where there is none.
pub open spec fn tail_start(s: Seq<char>, c: char) -> int
    decreases s.len(),
{
    if s.len() == 0 {
        0
    } else if s.last() == c {
        s.len() as int
    } else {
        tail_start(s.drop_last(), c)
    }
}

/// What stands behind the last `c`; all of `s` where there is none.
pub open spec fn after_last(s: Seq<char>, c: char) -> Seq<char> {
    s.subrange(tail_start(s, c), s.len() as int)
}

/// The test that every character but `c` passes.
pub open spec fn is_not(c: char) -> spec_fn(char) -> bool {
    |x: char| x != c
}

/// `s` with every `c` taken out.
pub open spec fn without(s: Seq<char>, c: char) -> Seq<char> {
    s.filter(is_not(c))
}

/// `first_index_of` points at the first `c` and at nothing before it.
pub proof fn lemma_first_index_of(s: Seq<char>, c: char)
    ensures
        0 <= first_index_of(s, c) <= s.len(),
        forall|i: int| 0 <= i < first_index_of(s, c) ==> s[i] != c,
        first_index_of(s, c) < s.len() ==> s[first_index_of(s, c)] == c,
    decreases s.len(),
{
    if s.len() > 0 && s[0] != c {
        lemma_first_index_of(s.drop_first(), c);
        assert forall|i: int| 0 <= i < first_index_of(s, c) implies s[i] != c by {
            if i > 0 {
                assert(s[i] == s.drop_first()[i - 1]);
            }
        }
    }
}

/// A position that holds `c` with none before it is the one `first_index_of` gives.
pub proof fn lemma_first_index_of_unique(s: Seq<char>, c: char, k: int)
    requires
        0 <= k <= s.len(),
        forall|i: int| 0 <= i < k ==> s[i] != c,
        k < s.len() ==> s[k] == c,
    ensures
        first_index_of(s, c) == k,
{
    lemma_first_index_of(s, c);
    let f = first_index_of(s, c);
    if f < k {
        assert(s[f] == c);
    } else if k < f {
        assert(s[k] == c);
    }
}

/// `tail_start` stands just behind the last `c`.
pub proof fn lemma_tail_start(s: Seq<char>, c: char)
    ensures
        0 <= tail_start(s, c) <= s.len(),
        forall|i: int| tail_start(s, c) <= i < s.len() ==> s[i] != c,
        tail_start(s, c) > 0 ==> s[tail_start(s, c) - 1] == c,
    decreases s.len(),
{
    if s.len() > 0 && s.last() != c {
        lemma_tail_start(s.drop_last(), c);
        assert forall|i: int| tail_start(s, c) <= i < s.len() implies s[i] != c by {
            if i < s.len() - 1 {
                assert(s[i] == s.drop_last()[i]);
            }
        }
    }
}

/// Text without `c` has it nowhere, so the first segment is all of it.
pub proof fn lemma_before_when_absent(s: Seq<char>, c: char)
    requires
        forall|i: int| 0 <= i < s.len() ==> s[i] != c,
    ensures
        first_index_of(s, c) == s.len(),
        before(s, c) == s,
        after(s, c) is None,
{
    lemma_first_index_of_unique(s, c, s.len() as int);
    assert(s.subrange(0, s.len() as int) == s);
}

/// Splitting `a + [c] + b` at `c` gives `a` and `b` back, where `a` holds no `c`.
pub proof fn lemma_split_joined(a: Seq<char>, b: Seq<char>, c: char)
    requires
        forall|i: int| 0 <= i < a.len() ==> a[i] != c,
    ensures
        before(a + seq![c] + b, c) == a,
        after(a + seq![c] + b, c) == Some(b),
{
    let s = a + seq![c] + b;
    assert forall|i: int| 0 <= i < a.len() implies s[i] != c by {
        assert(s[i] == a[i]);
    }
    assert(s[a.len() as int] == c);
    lemma_first_index_of_unique(s, c, a.len() as int);
    assert(s.subrange(0, a.len() as int) == a);
    assert(s.subrange(a.len() as int + 1, s.len() as int) == b);
}

/// Whether two pieces of text hold the same characters.
pub fn same_text(a: &str, b: &str) -> (r: bool)
    ensures
        r == (a@ == b@),
{
    let x = a.to_owned();
    let y = b.to_owned();
    x == y
}

/// Finds the first `c` in `s`; the number of characters of `s` where there is none.
pub fn find_char(s: &str, c: char) -> (r: usize)
    ensures
        r == first_index_of(s@, c),
{
    let len = s.unicode_len();
    let mut n: usize = 0;
    let mut found = false;
    for x in it: s.chars()
        invariant
            it.seq() == s@,
            len == s@.len(),
            forall|i: int| 0 <= i < n ==> s@[i] != c,
            !found ==> n == it.index(),
            found ==> n < s@.len() && s@[n as int] == c,
    {
        if !found {
            if x == c {
                found = true;
            } else {
                n = n + 1;
            }
        }
    }
    proof {
        lemma_first_index_of_unique(s@, c, n as int);
    }
    n
}

/// Cuts `s` at its first `c`: what stands before it, and what stands behind it if
/// there is one.
pub fn split_first<'a>(s: &'a str, c: char) -> (r: (&'a str, Option<&'a str>))
    ensures
        r.0@ == before(s@, c),
        match r.1 {
            Some(t) => after(s@, c) == Some(t@),
            None => after(s@, c) is None,
        },
{
    let len = s.unicode_len();
    let i = find_char(s, c);
    proof {
        lemma_first_index_of(s@, c);
    }
    let head = s.substring_char(0, i);
    if i < len {
        (head, Some(s.substring_char(i + 1, len)))
    } else {
        (head, None)
    }
}

/// What stands behind the last `c` of `s`: the longest end of `s` without
/// a `c`.
pub fn last_segment<'a>(s: &'a str, c: char) -> (r: &'a str)
    ensures
        r@ == after_last(s@, c),
        !r@.contains(c),
{
    proof {
        lemma_tail_start(s@, c);
        let tail = after_last(s@, c);
        if tail.contains(c) {
            let k = choose|k: int| 0 <= k < tail.len() && tail[k] == c;
            assert(s@[tail_start(s@, c) + k] == c);
        }
    }
    let len = s.unicode_len();
    let mut start: usize = 0;
    let mut n: usize = 0;
    for x in it: s.chars()
        invariant
            it.seq() == s@,
            len == s@.len(),
            n == it.index(),
            start == tail_start(s@.subrange(0, n as int), c),
            start <= n,
    {
        proof {
            let cur = s@.subrange(0, n as int + 1);
            assert(cur.drop_last() == s@.subrange(0, n as int));
            assert(cur.last() == x);
        }
        n = n + 1;
        if x == c {
            start = n;
        }
    }
    assert(s@.subrange(0, n as int) == s@);
    s.substring_char(start, len)
}

/// Copies `s` without its `c`s.
pub fn without_char(s: &str, c: char) -> (r: String)
    ensures
        r@ == without(s@, c),
{
    let ghost keep = is_not(c);
    let mut out = String::new();
    let mut rest = s;
    let ghost mut done: Seq<char> = Seq::empty();
    proof {
        reveal(Seq::filter);
        assert(done.filter(keep) == Seq::<char>::empty());
        assert(done + rest@ == s@);
    }
    loop
        invariant
            keep == is_not(c),
            done + rest@ == s@,
            out@ == done.filter(keep),
        decreases rest@.len(),
    {
        let len = rest.unicode_len();
        let i = find_char(rest, c);
        proof {
            lemma_first_index_of(rest@, c);
        }
        let head = rest.substring_char(0, i);
        out.append(head);
        proof {
            lemma_kept_whole(head@, c);
            Seq::filter_distributes_over_add(done, head@, keep);
        }
        if i < len {
            let tail = rest.substring_char(i + 1, len);
            proof {
                let hit = seq![c];
                reveal_with_fuel(Seq::filter, 2);
                assert(hit.drop_last() == Seq::<char>::empty());
                assert(hit.filter(keep) == Seq::<char>::empty());
                Seq::filter_distributes_over_add(done + head@, hit, keep);
                assert(rest@ == head@ + hit + tail@);
                assert(done + head@ + hit + tail@ == s@);
                done = done + head@ + hit;
            }
            rest = tail;
        } else {
            proof {
                assert(head@ == rest@);
                assert(done + head@ == s@);
            }
            return out;
        }
    }
}

/// Filtering out `c` keeps every character of text that holds no `c`.
proof fn lemma_kept_whole(s: Seq<char>, c: char)
    requires
        forall|i: int| 0 <= i < s.len() ==> s[i] != c,
    ensures
        s.filter(is_not(c)) == s,
    decreases s.len(),
{
    reveal(Seq::filter);
    if s.len() > 0 {
        lemma_kept_whole(s.drop_last(), c);
        assert(s.drop_last().push(s.last()) == s);
    }
}

} // verus!
