//! Absolute filesystem paths, modelled as their bytes.
//!
//! The existence waiter needs two things from a path: its chain of ancestor
//! directories (to find an existing watch root) and exact comparison against
//! the paths carried by change events. Both are defined here over the byte
//! sequence of a normalized absolute path: one that starts with the
//! separator, has no empty, `.` or `..` components, and no trailing
//! separator except for the root itself.

use vstd::prelude::*;

verus! {

/// The path separator byte, `/`.
pub const SEP: u8 = 47;

/// The `.` byte.
pub const DOT: u8 = 46;

/// A `.` component starts at index `i`: preceded by a separator, followed by
/// a separator or the end of the path.
pub open spec fn dot_at(s: Seq<u8>, i: int) -> bool {
    &&& s[i] == DOT
    &&& s[i - 1] == SEP
    &&& (i + 1 == s.len() || s[i + 1] == SEP)
}

/// A `..` component starts at index `i`.
pub open spec fn dotdot_at(s: Seq<u8>, i: int) -> bool {
    &&& i + 1 < s.len()
    &&& s[i] == DOT
    &&& s[i + 1] == DOT
    &&& s[i - 1] == SEP
    &&& (i + 2 == s.len() || s[i + 2] == SEP)
}

/// Position `i` introduces no empty, `.` or `..` component.
pub open spec fn clean_at(s: Seq<u8>, i: int) -> bool {
    &&& !(s[i] == SEP && s[i - 1] == SEP)
    &&& !dot_at(s, i)
    &&& !dotdot_at(s, i)
}

/// A normalized absolute path: non-empty, rooted at the separator, no empty,
/// `.` or `..` components, and no trailing separator unless the whole path is
/// the root.
pub open spec fn wf_abs(s: Seq<u8>) -> bool {
    &&& 1 <= s.len()
    &&& s[0] == SEP
    &&& (s.len() > 1 ==> s[s.len() - 1] != SEP)
    &&& (forall|i: int| 1 <= i < s.len() ==> #[trigger] clean_at(s, i))
}

/// Every byte is ASCII. ASCII byte strings are valid UTF-8, so resolving
/// such a path cannot founder on character encoding.
pub open spec fn ascii_bytes(s: Seq<u8>) -> bool {
    forall|i: int| 0 <= i < s.len() ==> s[i] < 128
}

/// Decides `wf_abs` for a byte string.
pub fn is_wf_bytes(s: &Vec<u8>) -> (r: bool)
    ensures
        r == wf_abs(s@),
{
    let n = s.len();
    if n == 0 {
        return false;
    }
    if s[0] != SEP {
        return false;
    }
    if n > 1 && s[n - 1] == SEP {
        return false;
    }
    let mut i: usize = 1;
    while i < n
        invariant
            1 <= i <= n,
            n == s@.len(),
            s@[0] == SEP,
            n > 1 ==> s@[n - 1] != SEP,
            forall|j: int| 1 <= j < i ==> #[trigger] clean_at(s@, j),
        decreases n - i,
    {
        let b = s[i];
        if b == SEP && s[i - 1] == SEP {
            assert(!clean_at(s@, i as int));
            return false;
        }
        if b == DOT && s[i - 1] == SEP {
            if i + 1 == n {
                assert(dot_at(s@, i as int));
                assert(!clean_at(s@, i as int));
                return false;
            }
            if s[i + 1] == SEP {
                assert(dot_at(s@, i as int));
                assert(!clean_at(s@, i as int));
                return false;
            }
            if s[i + 1] == DOT && (i + 2 == n || s[i + 2] == SEP) {
                assert(dotdot_at(s@, i as int));
                assert(!clean_at(s@, i as int));
                return false;
            }
        }
        assert(clean_at(s@, i as int));
        i += 1;
    }
    true
}

/// The path minus its last component and the separator before it; empty if
/// the last component is the whole path after the root.
pub open spec fn strip_last_component(s: Seq<u8>) -> Seq<u8>
    decreases s.len(),
{
    if s.len() == 0 {
        s
    } else if s[s.len() - 1] == SEP {
        s.drop_last()
    } else {
        strip_last_component(s.drop_last())
    }
}

/// The parent directory of a normalized absolute path (the root is its own
/// parent only in the sense that paths directly under the root have the root
/// as parent; `parent_seq` is meant for paths longer than the root).
pub open spec fn parent_seq(s: Seq<u8>) -> Seq<u8> {
    if strip_last_component(s).len() == 0 {
        seq![SEP]
    } else {
        strip_last_component(s)
    }
}

/// The index of the last separator byte, or -1 if there is none.
pub open spec fn last_sep(s: Seq<u8>) -> int
    decreases s.len(),
{
    if s.len() == 0 {
        -1
    } else if s[s.len() - 1] == SEP {
        s.len() - 1
    } else {
        last_sep(s.drop_last())
    }
}

/// In a rooted path the last separator exists, and nothing after it is a
/// separator.
proof fn lemma_last_sep_props(s: Seq<u8>)
    requires
        s.len() > 0,
        s[0] == SEP,
    ensures
        0 <= last_sep(s) < s.len(),
        s[last_sep(s)] == SEP,
        forall|j: int| last_sep(s) < j < s.len() ==> s[j] != SEP,
    decreases s.len(),
{
    if s[s.len() - 1] == SEP {
    } else {
        let t = s.drop_last();
        lemma_last_sep_props(t);
        assert(forall|j: int| last_sep(t) < j < t.len() ==> t[j] != SEP);
        assert(forall|j: int| 0 <= j < t.len() ==> t[j] == s[j]);
    }
}

/// With `k` the position of the last separator, stripping the last component
/// leaves exactly the prefix before `k`.
proof fn lemma_strip_is_prefix(s: Seq<u8>, k: int)
    requires
        0 <= k < s.len(),
        s[k] == SEP,
        forall|j: int| k < j < s.len() ==> s[j] != SEP,
    ensures
        strip_last_component(s) == s.subrange(0, k),
    decreases s.len(),
{
    if k == s.len() - 1 {
        assert(s.drop_last() =~= s.subrange(0, k));
    } else {
        let t = s.drop_last();
        assert(forall|j: int| 0 <= j < t.len() ==> t[j] == s[j]);
        lemma_strip_is_prefix(t, k);
        assert(t.subrange(0, k) =~= s.subrange(0, k));
    }
}

/// The parent of a normalized absolute path below the root is itself
/// normalized and strictly shorter.
proof fn lemma_parent_wf(s: Seq<u8>)
    requires
        wf_abs(s),
        s.len() > 1,
    ensures
        wf_abs(parent_seq(s)),
        parent_seq(s).len() < s.len(),
{
    lemma_last_sep_props(s);
    let k = last_sep(s);
    lemma_strip_is_prefix(s, k);
    assert(k < s.len() - 1) by {
        assert(s[s.len() - 1] != SEP);
    }
    if k == 0 {
        assert(strip_last_component(s).len() == 0);
        assert(parent_seq(s) =~= seq![SEP]);
        assert(wf_abs(seq![SEP]));
    } else {
        let t = s.subrange(0, k);
        assert(strip_last_component(s).len() == k);
        assert(parent_seq(s) == t);
        assert(t[0] == SEP);
        // no trailing separator: the byte before the last separator of s is
        // not itself a separator, else s would have an empty component
        assert(clean_at(s, k));
        assert(t.len() > 1 ==> t[t.len() - 1] != SEP);
        assert forall|i: int| 1 <= i < t.len() implies #[trigger] clean_at(t, i) by {
            assert(clean_at(s, i));
            assert(t[i] == s[i] && t[i - 1] == s[i - 1]);
            if i + 1 < k {
                assert(t[i + 1] == s[i + 1]);
            }
            if i + 2 < k {
                assert(t[i + 2] == s[i + 2]);
            }
            if dot_at(t, i) {
                assert(i + 1 == k || t[i + 1] == SEP);
                assert(i + 1 == k ==> s[i + 1] == s[k]);
                assert(dot_at(s, i));
            }
            if dotdot_at(t, i) {
                assert(i + 2 == k || t[i + 2] == SEP);
                assert(i + 2 == k ==> s[i + 2] == s[k]);
                assert(dotdot_at(s, i));
            }
        }
        assert(wf_abs(t));
    }
}

/// The chain of ancestor directories of a normalized absolute path, from the
/// immediate parent up to and including the root; empty for the root itself.
pub open spec fn ancestor_chain(s: Seq<u8>) -> Seq<Seq<u8>>
    decreases s.len(),
    when wf_abs(s)
    via ancestor_chain_decreases
{
    if s.len() <= 1 {
        Seq::empty()
    } else {
        seq![parent_seq(s)] + ancestor_chain(parent_seq(s))
    }
}

#[via_fn]
proof fn ancestor_chain_decreases(s: Seq<u8>) {
    if wf_abs(s) && s.len() > 1 {
        lemma_parent_wf(s);
    }
}

/// A resolved absolute path, held as its bytes. The well-formedness
/// invariant `wf` is established by the constructors and preserved by every
/// method.
pub struct AbsPath {
    bytes: Vec<u8>,
}

impl View for AbsPath {
    type V = Seq<u8>;

    closed spec fn view(&self) -> Seq<u8> {
        self.bytes@
    }
}

impl AbsPath {
    /// The type's invariant: the bytes form a normalized absolute path.
    pub open spec fn wf(&self) -> bool {
        wf_abs(self@)
    }

    /// Wraps a byte string, accepting exactly the normalized absolute paths.
    pub fn from_bytes(bytes: Vec<u8>) -> (r: Option<AbsPath>)
        ensures
            (r is Some) == wf_abs(bytes@),
            r matches Some(p) ==> p@ == bytes@ && p.wf(),
    {
        if is_wf_bytes(&bytes) {
            Some(AbsPath { bytes })
        } else {
            None
        }
    }

    /// The underlying bytes.
    pub fn as_bytes(&self) -> (r: &Vec<u8>)
        ensures
            r@ == self@,
    {
        &self.bytes
    }

    /// The length of the path in bytes.
    pub fn byte_len(&self) -> (r: usize)
        ensures
            r == self@.len(),
    {
        self.bytes.len()
    }

    /// An identical copy.
    pub fn duplicate(&self) -> (r: AbsPath)
        ensures
            r@ == self@,
    {
        AbsPath { bytes: clone_bytes(&self.bytes) }
    }

    /// The parent directory of a path below the root.
    pub fn parent(&self) -> (r: AbsPath)
        requires
            self.wf(),
            self@.len() > 1,
        ensures
            r.wf(),
            r@ == parent_seq(self@),
            r@.len() < self@.len(),
    {
        proof {
            lemma_last_sep_props(self@);
            lemma_strip_is_prefix(self@, last_sep(self@));
            lemma_parent_wf(self@);
        }
        let n = self.bytes.len();
        let mut k: usize = n - 1;
        while self.bytes[k] != SEP
            invariant
                0 <= k < n,
                n == self@.len(),
                self@[0] == SEP,
                forall|j: int| k < j < n ==> self@[j] != SEP,
            decreases k,
        {
            k -= 1;
        }
        proof {
            assert(k == last_sep(self@)) by {
                if k < last_sep(self@) {
                    assert(self@[last_sep(self@)] != SEP);
                }
                if k > last_sep(self@) {
                    assert(self@[k as int] != SEP);
                }
            }
        }
        if k == 0 {
            let root: Vec<u8> = vec![SEP];
            assert(root@ =~= seq![SEP]);
            AbsPath { bytes: root }
        } else {
            let p = prefix_bytes(&self.bytes, k);
            AbsPath { bytes: p }
        }
    }

    /// Every ancestor directory of the path, nearest first, ending with the
    /// root. The root itself has no ancestors here.
    pub fn ancestors(&self) -> (r: Vec<AbsPath>)
        requires
            self.wf(),
        ensures
            r@.len() == ancestor_chain(self@).len(),
            forall|i: int|
                0 <= i < r@.len() ==> #[trigger] r@[i]@ == ancestor_chain(self@)[i] && r@[i].wf(),
    {
        let mut out: Vec<AbsPath> = Vec::new();
        let mut cur: AbsPath = self.duplicate();
        while cur.byte_len() > 1
            invariant
                cur.wf(),
                ancestor_chain(self@) =~= out@.map_values(|p: AbsPath| p@) + ancestor_chain(
                    cur@,
                ),
                forall|i: int| 0 <= i < out@.len() ==> (#[trigger] out@[i]).wf(),
            decreases cur@.len(),
        {
            proof {
                lemma_parent_wf(cur@);
            }
            let next = cur.parent();
            out.push(next.duplicate());
            proof {
                assert(out@.map_values(|p: AbsPath| p@) =~= out@.drop_last().map_values(
                    |p: AbsPath| p@,
                ).push(next@));
            }
            cur = next;
        }
        proof {
            assert(ancestor_chain(cur@) =~= Seq::<Seq<u8>>::empty());
            assert(ancestor_chain(self@) =~= out@.map_values(|p: AbsPath| p@));
        }
        out
    }
}

/// An identical copy of a byte string.
pub fn clone_bytes(v: &Vec<u8>) -> (r: Vec<u8>)
    ensures
        r@ == v@,
{
    let mut out: Vec<u8> = Vec::new();
    let mut i: usize = 0;
    while i < v.len()
        invariant
            0 <= i <= v@.len(),
            out@ =~= v@.subrange(0, i as int),
        decreases v@.len() - i,
    {
        out.push(v[i]);
        i += 1;
    }
    proof {
        assert(out@ =~= v@);
    }
    out
}

/// The first `k` bytes of a byte string.
pub fn prefix_bytes(v: &Vec<u8>, k: usize) -> (r: Vec<u8>)
    requires
        k <= v@.len(),
    ensures
        r@ == v@.subrange(0, k as int),
{
    let mut out: Vec<u8> = Vec::new();
    let mut i: usize = 0;
    while i < k
        invariant
            0 <= i <= k <= v@.len(),
            out@ =~= v@.subrange(0, i as int),
        decreases k - i,
    {
        out.push(v[i]);
        i += 1;
    }
    out
}

/// Whether two byte strings are equal.
pub fn bytes_eq(a: &Vec<u8>, b: &Vec<u8>) -> (r: bool)
    ensures
        r == (a@ == b@),
{
    if a.len() != b.len() {
        return false;
    }
    let mut i: usize = 0;
    while i < a.len()
        invariant
            0 <= i <= a@.len(),
            a@.len() == b@.len(),
            forall|j: int| 0 <= j < i ==> a@[j] == b@[j],
        decreases a@.len() - i,
    {
        if a[i] != b[i] {
            return false;
        }
        i += 1;
    }
    proof {
        assert(a@ =~= b@);
    }
    true
}

} // verus!
