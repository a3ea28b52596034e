//! Change histories and how two of them relate.
//!
//! A history is the ordered list of an identity's changes. Each change is
//! held by its identifier, the bytes by which a change is told from another.

use vstd::prelude::*;

verus! {

/// How a history relates to the one that is already known.
#[derive(Clone, Copy, Debug, PartialEq, Eq, Structural)]
pub enum Comparison {
    /// The same changes, in the same order.
    Equal,
    /// Some change differs from the known one in the same place.
    Conflict,
    /// The known history, continued.
    Newer,
    /// A beginning of the known history.
    Older,
}

/// The number that stands for a comparison on the wire.
pub open spec fn comparison_index(c: Comparison) -> u64 {
    match c {
        Comparison::Equal => 0,
        Comparison::Conflict => 1,
        Comparison::Newer => 2,
        Comparison::Older => 3,
    }
}

/// The comparison that a number stands for, if any.
pub open spec fn comparison_of_index(i: u64) -> Option<Comparison> {
    if i == 0 {
        Some(Comparison::Equal)
    } else if i == 1 {
        Some(Comparison::Conflict)
    } else if i == 2 {
        Some(Comparison::Newer)
    } else if i == 3 {
        Some(Comparison::Older)
    } else {
        None
    }
}

impl Comparison {
    /// The number that stands for this comparison on the wire.
    pub fn index(self) -> (i: u64)
        ensures
            i == comparison_index(self),
            comparison_of_index(i) == Some(self),
    {
        match self {
            Comparison::Equal => 0,
            Comparison::Conflict => 1,
            Comparison::Newer => 2,
            Comparison::Older => 3,
        }
    }

    /// The comparison that `i` stands for; `None` where it stands for none.
    pub fn from_index(i: u64) -> (c: Option<Comparison>)
        ensures
            c == comparison_of_index(i),
    {
        if i == 0 {
            Some(Comparison::Equal)
        } else if i == 1 {
            Some(Comparison::Conflict)
        } else if i == 2 {
            Some(Comparison::Newer)
        } else if i == 3 {
            Some(Comparison::Older)
        } else {
            None
        }
    }
}

/// The changes of an identity, oldest first, each by its identifier.
#[derive(Clone, Debug)]
pub struct ChangeHistory {
    pub changes: Vec<Vec<u8>>,
}

impl View for ChangeHistory {
    type V = Seq<Seq<u8>>;

    open spec fn view(&self) -> Seq<Seq<u8>> {
        Seq::new(self.changes@.len(), |i: int| self.changes@[i]@)
    }
}

/// Do the two histories hold different changes in some place that both have?
pub open spec fn diverge(current: Seq<Seq<u8>>, known: Seq<Seq<u8>>) -> bool {
    exists|i: int| 0 <= i < current.len() && i < known.len() && current[i] != known[i]
}

/// How `current` relates to `known`.
pub open spec fn relation(current: Seq<Seq<u8>>, known: Seq<Seq<u8>>) -> Comparison {
    if diverge(current, known) {
        Comparison::Conflict
    } else if current.len() < known.len() {
        Comparison::Older
    } else if current.len() == known.len() {
        Comparison::Equal
    } else {
        Comparison::Newer
    }
}

/// How `current` relates to what is known, where nothing may be known yet:
/// against nothing, everything is new.
pub open spec fn relation_to_known(current: Seq<Seq<u8>>, known: Option<Seq<Seq<u8>>>)
    -> Comparison {
    match known {
        None => Comparison::Newer,
        Some(k) => relation(current, k),
    }
}

/// Is `a` a beginning of `b`, and shorter?
pub open spec fn strict_prefix(a: Seq<Seq<u8>>, b: Seq<Seq<u8>>) -> bool {
    a.len() < b.len() && b.subrange(0, a.len() as int) == a
}

/// Are two byte strings the same?
pub fn same_bytes(a: &[u8], b: &[u8]) -> (r: bool)
    ensures
        r == (a@ == b@),
{
    if a.len() != b.len() {
        return false;
    }
    let mut i: usize = 0;
    while i < a.len()
        invariant
            i <= a.len(),
            a.len() == b.len(),
            forall|j: int| 0 <= j < i ==> a@[j] == b@[j],
        decreases a.len() - i,
    {
        if a[i] != b[i] {
            return false;
        }
        i += 1;
    }
    assert(a@ =~= b@);
    true
}

impl ChangeHistory {
    /// The history of no change.
    pub fn new() -> (h: ChangeHistory)
        ensures
            h@ == Seq::<Seq<u8>>::empty(),
    {
        let h = ChangeHistory { changes: Vec::new() };
        assert(h@ =~= Seq::<Seq<u8>>::empty());
        h
    }

    /// Appends a change, by its identifier.
    pub fn push(&mut self, change: Vec<u8>)
        ensures
            final(self)@ == old(self)@.push(change@),
    {
        self.changes.push(change);
        assert(self@ =~= old(self)@.push(change@));
    }

    /// The number of changes.
    pub fn len(&self) -> (n: usize)
        ensures
            n == self@.len(),
    {
        self.changes.len()
    }

    /// Walks both histories from the start. A place where they differ makes
    /// a conflict; where there is none, the longer history is the newer one.
    pub fn compare(&self, known: &ChangeHistory) -> (r: Comparison)
        ensures
            r == relation(self@, known@),
    {
        let n: usize = self.changes.len();
        let m: usize = known.changes.len();
        let mut i: usize = 0;
        while i < n && i < m
            invariant
                n == self.changes@.len(),
                m == known.changes@.len(),
                i <= n,
                i <= m,
                forall|j: int| 0 <= j < i ==> self@[j] == known@[j],
            decreases n - i,
        {
            if !same_bytes(self.changes[i].as_slice(), known.changes[i].as_slice()) {
                assert(self@[i as int] != known@[i as int]);
                return Comparison::Conflict;
            }
            i += 1;
        }
        assert(!diverge(self@, known@));
        if n < m {
            Comparison::Older
        } else if n == m {
            Comparison::Equal
        } else {
            Comparison::Newer
        }
    }

    /// Compares with what is known, where nothing may be known yet.
    pub fn compare_with_known(&self, known: &Option<ChangeHistory>) -> (r: Comparison)
        ensures
            r == relation_to_known(
                self@,
                match known {
                    Some(k) => Some(k@),
                    None => None,
                },
            ),
            known.is_none() ==> r == Comparison::Newer,
    {
        match known {
            None => Comparison::Newer,
            Some(k) => self.compare(k),
        }
    }
}

/// Against nothing known, every history is newer.
pub proof fn lemma_nothing_known_is_newer(current: Seq<Seq<u8>>)
    ensures
        relation_to_known(current, None) == Comparison::Newer,
{
}

/// A history equals itself.
pub proof fn lemma_self_is_equal(h: Seq<Seq<u8>>)
    ensures
        relation(h, h) == Comparison::Equal,
{
}

/// A history is newer than each of its strict beginnings, and each of them
/// is older than it.
pub proof fn lemma_prefix_is_older(short: Seq<Seq<u8>>, long: Seq<Seq<u8>>)
    requires
        strict_prefix(short, long),
    ensures
        relation(long, short) == Comparison::Newer,
        relation(short, long) == Comparison::Older,
{
    assert forall|i: int| 0 <= i < short.len() implies short[i] == long[i] by {
        assert(long.subrange(0, short.len() as int)[i] == long[i]);
    }
}

/// Two histories that continue a common beginning with different changes
/// are in conflict, whichever is compared with which.
pub proof fn lemma_fork_is_conflict(
    common: Seq<Seq<u8>>,
    a: Seq<u8>,
    b: Seq<u8>,
    rest_a: Seq<Seq<u8>>,
    rest_b: Seq<Seq<u8>>,
)
    requires
        a != b,
    ensures
        relation(common.push(a) + rest_a, common.push(b) + rest_b) == Comparison::Conflict,
        relation(common.push(b) + rest_b, common.push(a) + rest_a) == Comparison::Conflict,
{
    let x = common.push(a) + rest_a;
    let y = common.push(b) + rest_b;
    let i = common.len() as int;
    assert(x[i] == a);
    assert(y[i] == b);
    assert(0 <= i < x.len() && i < y.len() && x[i] != y[i]);
    assert(0 <= i < y.len() && i < x.len() && y[i] != x[i]);
}

/// Swapping the two histories swaps newer and older and keeps the rest.
pub proof fn lemma_relation_swaps(a: Seq<Seq<u8>>, b: Seq<Seq<u8>>)
    ensures
        relation(a, b) == Comparison::Equal <==> relation(b, a) == Comparison::Equal,
        relation(a, b) == Comparison::Conflict <==> relation(b, a) == Comparison::Conflict,
        relation(a, b) == Comparison::Newer <==> relation(b, a) == Comparison::Older,
{
    if diverge(a, b) {
        let i = choose|i: int| 0 <= i < a.len() && i < b.len() && a[i] != b[i];
        assert(0 <= i < b.len() && i < a.len() && b[i] != a[i]);
    }
    if diverge(b, a) {
        let i = choose|i: int| 0 <= i < b.len() && i < a.len() && b[i] != a[i];
        assert(0 <= i < a.len() && i < b.len() && a[i] != b[i]);
    }
}

} // verus!
