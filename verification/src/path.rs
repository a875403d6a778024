//! Paths as text, with `/` between components.

use vstd::prelude::*;
use vstd::string::*;
use crate::text::chars_of;

verus! {

/// `part` adjoined to `base`. An absolute `part` stands alone; otherwise one
/// separator is put between the two, unless `base` is empty or ends with one.
pub open spec fn joined(base: Seq<char>, part: Seq<char>) -> Seq<char> {
    if part.len() > 0 && part[0] == '/' {
        part
    } else if base.len() == 0 || base.last() == '/' {
        base + part
    } else {
        base + seq!['/'] + part
    }
}

/// The position of the last separator of `p`, or -1 where it has none.
pub open spec fn last_separator(p: Seq<char>) -> int
    decreases p.len(),
{
    if p.len() == 0 {
        -1
    } else if p.last() == '/' {
        p.len() - 1
    } else {
        last_separator(p.drop_last())
    }
}

/// The directory that holds the file `p`: what stands before the last
/// separator, the root itself for a file directly under it, and the empty
/// path for a bare file name. A path that is empty or ends with a separator
/// names no file and has no parent.
pub open spec fn parent_of(p: Seq<char>) -> Option<Seq<char>> {
    let at = last_separator(p);
    if p.len() == 0 || at == p.len() - 1 {
        None
    } else if at < 0 {
        Some(Seq::empty())
    } else if at == 0 {
        Some(seq!['/'])
    } else {
        Some(p.take(at))
    }
}

/// `last_separator` is the greatest position that holds a separator.
pub proof fn lemma_last_separator(p: Seq<char>)
    ensures
        -1 <= last_separator(p) < p.len(),
        last_separator(p) >= 0 ==> p[last_separator(p)] == '/',
        forall|j: int| last_separator(p) < j < p.len() ==> p[j] != '/',
    decreases p.len(),
{
    if p.len() > 0 && p.last() != '/' {
        let q = p.drop_last();
        lemma_last_separator(q);
        assert forall|j: int| last_separator(p) < j < p.len() implies p[j] != '/' by {
            if j < q.len() {
                assert(q[j] == p[j]);
            }
        }
    }
}

/// Adjoins `part` to `base`.
pub fn join(base: &str, part: &str) -> (r: String)
    ensures
        r@ == joined(base@, part@),
{
    let b = chars_of(base);
    let p = chars_of(part);
    if p.len() > 0 && p[0] == '/' {
        return String::from_str(part);
    }
    let mut r = String::from_str(base);
    if b.len() > 0 && b[b.len() - 1] != '/' {
        r.append("/");
        proof {
            reveal_strlit("/");
        }
    }
    r.append(part);
    r
}

/// The directory that holds the file `p`, where it has one.
pub fn parent(p: &str) -> (r: Option<String>)
    ensures
        r.is_some() == parent_of(p@).is_some(),
        r.is_some() ==> r.unwrap()@ == parent_of(p@).unwrap(),
{
    let c = chars_of(p);
    let n = c.len();
    let mut at: usize = n;
    assert(c@.take(n as int) =~= c@);
    while at > 0 && c[at - 1] != '/'
        invariant
            at <= n,
            n == c.len(),
            c@ == p@,
            last_separator(c@) == last_separator(c@.take(at as int)),
        decreases at,
    {
        proof {
            assert(c@.take(at as int).drop_last() =~= c@.take(at - 1));
        }
        at -= 1;
    }
    // `at` is one past the last separator, or 0 where there is none.
    if n == 0 || at == n {
        None
    } else if at == 0 {
        Some(String::new())
    } else if at == 1 {
        proof {
            reveal_strlit("/");
        }
        Some(String::from_str("/"))
    } else {
        Some(String::from_str(p.substring_char(0, at - 1)))
    }
}

} // verus!
