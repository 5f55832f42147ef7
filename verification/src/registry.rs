//! The subscription registry: the single source of truth for which input
//! ports are currently wanted.
//!
//! A registry holds the descriptors of the ports with a live subscription.
//! Entries are deduplicated under descriptor equality and kept sorted by
//! enumeration index after every mutation, so contains-checks and iteration
//! are deterministic.  Removal from the registry is the only signal a
//! delivery worker ever observes to begin its shutdown.

use vstd::prelude::*;

use crate::errors::Error;

verus! {

/// What the registry needs of a subscription entry: an enumeration index
/// and descriptor equality (name, direction and index), which must be an
/// equivalence relation.
pub trait PortEntry: Sized {
    /// The entry's enumeration index.
    spec fn num_spec(self) -> nat;

    /// Descriptor equality.
    spec fn same_spec(self, other: Self) -> bool;

    /// Descriptor equality is reflexive, symmetric and transitive.
    proof fn lemma_same_spec_equivalence(a: Self, b: Self, c: Self)
        ensures
            a.same_spec(a),
            a.same_spec(b) == b.same_spec(a),
            a.same_spec(b) && b.same_spec(c) ==> a.same_spec(c),
    ;

    /// The entry's enumeration index.
    fn entry_num(&self) -> (n: usize)
        ensures
            n as nat == self.num_spec(),
    ;

    /// Whether two entries are equal as descriptors.
    fn same_entry(&self, other: &Self) -> (r: bool)
        ensures
            r == self.same_spec(*other),
    ;

    /// A field-exact copy of the entry.
    fn duplicate(&self) -> (r: Self)
        ensures
            r == *self,
    ;
}

/// Entries are sorted by enumeration index.
pub open spec fn sorted_by_num<E: PortEntry>(s: Seq<E>) -> bool {
    forall|i: int, j: int|
        #![trigger s[i].num_spec(), s[j].num_spec()]
        0 <= i < j < s.len() ==> s[i].num_spec() <= s[j].num_spec()
}

/// No two entries are equal as descriptors.
pub open spec fn distinct_entries<E: PortEntry>(s: Seq<E>) -> bool {
    forall|i: int, j: int|
        #![trigger s[i].same_spec(s[j])]
        0 <= i < j < s.len() ==> !s[i].same_spec(s[j])
}

/// The registry invariant: deduplicated and sorted by index.
pub open spec fn registry_wf<E: PortEntry>(s: Seq<E>) -> bool {
    sorted_by_num(s) && distinct_entries(s)
}

/// Some entry is equal, as a descriptor, to `p`.
pub open spec fn spec_contains<E: PortEntry>(s: Seq<E>, p: E) -> bool {
    exists|i: int| 0 <= i < s.len() && (#[trigger] s[i].same_spec(p))
}

/// Some entry has enumeration index `n`.
pub open spec fn spec_contains_num<E: PortEntry>(s: Seq<E>, n: nat) -> bool {
    exists|i: int| 0 <= i < s.len() && (#[trigger] s[i].num_spec()) == n
}

/// The index of the first entry equal, as a descriptor, to `p`
/// (meaningful only when such an entry exists).
pub open spec fn first_match<E: PortEntry>(s: Seq<E>, p: E) -> int
    decreases s.len(),
{
    if s.len() == 0 {
        0
    } else if s[0].same_spec(p) {
        0
    } else {
        1 + first_match(s.drop_first(), p)
    }
}

/// The index of the first entry with enumeration index `n`
/// (meaningful only when such an entry exists).
pub open spec fn first_num_match<E: PortEntry>(s: Seq<E>, n: nat) -> int
    decreases s.len(),
{
    if s.len() == 0 {
        0
    } else if s[0].num_spec() == n {
        0
    } else {
        1 + first_num_match(s.drop_first(), n)
    }
}

/// Where a new entry with index `n` is inserted: after every entry whose
/// index is at most `n`.
pub open spec fn insert_position<E: PortEntry>(s: Seq<E>, n: nat) -> int
    decreases s.len(),
{
    if s.len() == 0 {
        0
    } else if s[0].num_spec() <= n {
        1 + insert_position(s.drop_first(), n)
    } else {
        0
    }
}

/// The registry contents after inserting `p` at its sorted position.
pub open spec fn spec_insert<E: PortEntry>(s: Seq<E>, p: E) -> Seq<E> {
    s.insert(insert_position(s, p.num_spec()), p)
}

/// The registry contents after a subscribe call: unchanged when an equal
/// descriptor is already present, otherwise `p` inserted in sorted order.
pub open spec fn spec_subscribe<E: PortEntry>(s: Seq<E>, p: E) -> Seq<E> {
    if spec_contains(s, p) {
        s
    } else {
        spec_insert(s, p)
    }
}

/// Exactly one entry is equal, as a descriptor, to `p`.
pub open spec fn exactly_one_match<E: PortEntry>(s: Seq<E>, p: E) -> bool {
    spec_contains(s, p) && (forall|i: int, j: int|
        #![trigger s[i].same_spec(p), s[j].same_spec(p)]
        0 <= i < s.len() && 0 <= j < s.len() && s[i].same_spec(p) && s[j].same_spec(p) ==> i == j)
}

proof fn lemma_first_match_properties<E: PortEntry>(s: Seq<E>, p: E)
    requires
        spec_contains(s, p),
    ensures
        0 <= first_match(s, p) < s.len(),
        s[first_match(s, p)].same_spec(p),
        forall|j: int| 0 <= j < first_match(s, p) ==> !(#[trigger] s[j].same_spec(p)),
    decreases s.len(),
{
    if s[0].same_spec(p) {
    } else {
        let i0 = choose|i: int| 0 <= i < s.len() && (#[trigger] s[i].same_spec(p));
        assert(s.drop_first()[i0 - 1].same_spec(p));
        lemma_first_match_properties(s.drop_first(), p);
        assert forall|j: int| 0 <= j < first_match(s, p) implies !(#[trigger] s[j].same_spec(
            p,
        )) by {
            if j > 0 {
                assert(s.drop_first()[j - 1] == s[j]);
            }
        }
    }
}

proof fn lemma_first_num_match_properties<E: PortEntry>(s: Seq<E>, n: nat)
    requires
        spec_contains_num(s, n),
    ensures
        0 <= first_num_match(s, n) < s.len(),
        s[first_num_match(s, n)].num_spec() == n,
        forall|j: int| 0 <= j < first_num_match(s, n) ==> (#[trigger] s[j].num_spec()) != n,
    decreases s.len(),
{
    if s[0].num_spec() == n {
    } else {
        let i0 = choose|i: int| 0 <= i < s.len() && (#[trigger] s[i].num_spec()) == n;
        assert(s.drop_first()[i0 - 1].num_spec() == n);
        lemma_first_num_match_properties(s.drop_first(), n);
        assert forall|j: int| 0 <= j < first_num_match(s, n) implies (#[trigger] s[j].num_spec())
            != n by {
            if j > 0 {
                assert(s.drop_first()[j - 1] == s[j]);
            }
        }
    }
}

proof fn lemma_insert_position_properties<E: PortEntry>(s: Seq<E>, n: nat)
    ensures
        0 <= insert_position(s, n) <= s.len(),
        forall|j: int| 0 <= j < insert_position(s, n) ==> (#[trigger] s[j].num_spec()) <= n,
        insert_position(s, n) < s.len() ==> s[insert_position(s, n)].num_spec() > n,
    decreases s.len(),
{
    if s.len() == 0 {
    } else if s[0].num_spec() <= n {
        lemma_insert_position_properties(s.drop_first(), n);
        assert forall|j: int| 0 <= j < insert_position(s, n) implies (#[trigger] s[j].num_spec())
            <= n by {
            if j > 0 {
                assert(s.drop_first()[j - 1] == s[j]);
            }
        }
        if insert_position(s, n) < s.len() {
            assert(s.drop_first()[insert_position(s.drop_first(), n)] == s[insert_position(s, n)]);
        }
    } else {
    }
}

/// The characterization above pins the position down uniquely.
proof fn lemma_insert_position_unique<E: PortEntry>(s: Seq<E>, n: nat, k: int)
    requires
        0 <= k <= s.len(),
        forall|j: int| 0 <= j < k ==> (#[trigger] s[j].num_spec()) <= n,
        k < s.len() ==> s[k].num_spec() > n,
    ensures
        k == insert_position(s, n),
{
    lemma_insert_position_properties(s, n);
    let ip = insert_position(s, n);
    if k < ip {
        assert(s[k].num_spec() <= n);
    } else if ip < k {
        assert(s[ip].num_spec() <= n);
    }
}

proof fn lemma_first_match_unique<E: PortEntry>(s: Seq<E>, p: E, k: int)
    requires
        0 <= k < s.len(),
        s[k].same_spec(p),
        forall|j: int| 0 <= j < k ==> !(#[trigger] s[j].same_spec(p)),
    ensures
        k == first_match(s, p),
{
    assert(spec_contains(s, p));
    lemma_first_match_properties(s, p);
}

proof fn lemma_first_num_match_unique<E: PortEntry>(s: Seq<E>, n: nat, k: int)
    requires
        0 <= k < s.len(),
        s[k].num_spec() == n,
        forall|j: int| 0 <= j < k ==> (#[trigger] s[j].num_spec()) != n,
    ensures
        k == first_num_match(s, n),
{
    assert(spec_contains_num(s, n));
    lemma_first_num_match_properties(s, n);
}

/// In a well-formed registry at most one entry can equal a given
/// descriptor, so containment means exactly one entry matches.
pub proof fn lemma_wf_unique_match<E: PortEntry>(s: Seq<E>, p: E)
    requires
        registry_wf(s),
        spec_contains(s, p),
    ensures
        exactly_one_match(s, p),
{
    assert forall|i: int, j: int|
        0 <= i < s.len() && 0 <= j < s.len() && (#[trigger] s[i].same_spec(p)) && (
        #[trigger] s[j].same_spec(p)) implies i == j by {
        if i != j {
            let (lo, hi) = if i < j {
                (i, j)
            } else {
                (j, i)
            };
            E::lemma_same_spec_equivalence(s[hi], p, p);
            E::lemma_same_spec_equivalence(s[lo], p, s[hi]);
            E::lemma_same_spec_equivalence(p, s[hi], s[hi]);
            assert(s[lo].same_spec(s[hi]));
        }
    }
}

/// Inserting an absent descriptor preserves the registry invariant and
/// makes the registry contain it.
pub proof fn lemma_spec_insert_wf<E: PortEntry>(s: Seq<E>, p: E)
    requires
        registry_wf(s),
        !spec_contains(s, p),
    ensures
        registry_wf(spec_insert(s, p)),
        spec_contains(spec_insert(s, p), p),
        spec_insert(s, p).len() == s.len() + 1,
{
    let n = p.num_spec();
    let k = insert_position(s, n);
    lemma_insert_position_properties(s, n);
    s.insert_ensures(k, p);
    let t = spec_insert(s, p);
    assert(t[k] == p);
    E::lemma_same_spec_equivalence(p, p, p);
    assert(spec_contains(t, p));
    assert forall|i: int, j: int|
        #![trigger t[i].num_spec(), t[j].num_spec()]
        0 <= i < j < t.len() implies t[i].num_spec() <= t[j].num_spec() by {
        if i < k && j < k {
            assert(t[i] == s[i] && t[j] == s[j]);
        } else if i < k && j == k {
            assert(t[i] == s[i] && t[j] == p);
        } else if i < k && j > k {
            assert(t[i] == s[i] && t[j] == s[j - 1]);
            if j - 1 >= k {
                assert(s[k].num_spec() > n || j - 1 == k || s[j - 1].num_spec() >= s[k].num_spec());
            }
        } else if i == k && j > k {
            assert(t[i] == p && t[j] == s[j - 1]);
            assert(s[j - 1].num_spec() >= s[k].num_spec() || j - 1 == k);
            assert(s[k].num_spec() > n);
        } else {
            assert(t[i] == s[i - 1] && t[j] == s[j - 1]);
        }
    }
    assert forall|i: int, j: int|
        #![trigger t[i].same_spec(t[j])]
        0 <= i < j < t.len() implies !t[i].same_spec(t[j]) by {
        if i == k {
            assert(t[j] == s[j - 1]);
            E::lemma_same_spec_equivalence(p, s[j - 1], s[j - 1]);
            if p.same_spec(s[j - 1]) {
                assert(s[j - 1].same_spec(p));
                assert(spec_contains(s, p));
            }
        } else if j == k {
            assert(t[i] == s[i]);
            if s[i].same_spec(p) {
                assert(spec_contains(s, p));
            }
        } else {
            let si = if i < k {
                i
            } else {
                i - 1
            };
            let sj = if j < k {
                j
            } else {
                j - 1
            };
            assert(t[i] == s[si] && t[j] == s[sj]);
        }
    }
}

/// Removing an entry preserves the registry invariant.
pub proof fn lemma_remove_preserves_wf<E: PortEntry>(s: Seq<E>, i: int)
    requires
        registry_wf(s),
        0 <= i < s.len(),
    ensures
        registry_wf(s.remove(i)),
        s.remove(i).len() == s.len() - 1,
{
    s.remove_ensures(i);
    let t = s.remove(i);
    assert forall|a: int, b: int|
        #![trigger t[a].num_spec(), t[b].num_spec()]
        0 <= a < b < t.len() implies t[a].num_spec() <= t[b].num_spec() by {
        let sa = if a < i {
            a
        } else {
            a + 1
        };
        let sb = if b < i {
            b
        } else {
            b + 1
        };
        assert(t[a] == s[sa] && t[b] == s[sb]);
    }
    assert forall|a: int, b: int|
        #![trigger t[a].same_spec(t[b])]
        0 <= a < b < t.len() implies !t[a].same_spec(t[b]) by {
        let sa = if a < i {
            a
        } else {
            a + 1
        };
        let sb = if b < i {
            b
        } else {
            b + 1
        };
        assert(t[a] == s[sa] && t[b] == s[sb]);
    }
}

/// Law: subscribing a port leaves exactly one equal entry in the registry,
/// no matter whether the subscribe call is repeated: the second call finds
/// the entry present and changes nothing.
pub proof fn lemma_subscribe_deduplicates<E: PortEntry>(s: Seq<E>, p: E)
    requires
        registry_wf(s),
    ensures
        exactly_one_match(spec_subscribe(s, p), p),
        spec_subscribe(spec_subscribe(s, p), p) == spec_subscribe(s, p),
        registry_wf(spec_subscribe(s, p)),
{
    if spec_contains(s, p) {
        lemma_wf_unique_match(s, p);
    } else {
        lemma_spec_insert_wf(s, p);
        lemma_wf_unique_match(spec_insert(s, p), p);
    }
}

/// A registry of subscription entries.
pub struct Registry<E> {
    entries: Vec<E>,
}

impl<E> View for Registry<E> {
    type V = Seq<E>;

    closed spec fn view(&self) -> Seq<E> {
        self.entries@
    }
}

impl<E: PortEntry> Registry<E> {
    /// The registry invariant holds of the current contents.
    pub open spec fn wf(&self) -> bool {
        registry_wf(self@)
    }

    /// An empty registry.
    pub fn new() -> (r: Self)
        ensures
            r@ == Seq::<E>::empty(),
            r.wf(),
    {
        Registry { entries: Vec::new() }
    }

    /// How many ports are currently subscribed.
    pub fn len(&self) -> (n: usize)
        ensures
            n == self@.len(),
    {
        self.entries.len()
    }

    /// Whether an entry equal, as a descriptor, to `p` is present.
    pub fn contains_port(&self, p: &E) -> (r: bool)
        ensures
            r == spec_contains(self@, *p),
    {
        let n = self.entries.len();
        let mut i: usize = 0;
        while i < n
            invariant
                n == self.entries.len(),
                i <= n,
                forall|j: int| 0 <= j < i ==> !(#[trigger] self.entries@[j].same_spec(*p)),
            decreases n - i,
        {
            if self.entries[i].same_entry(p) {
                return true;
            }
            i += 1;
        }
        false
    }

    /// Insert `p` at its sorted position, refusing a descriptor that is
    /// already subscribed.
    pub fn insert(&mut self, p: E) -> (r: Result<(), Error>)
        requires
            old(self).wf(),
        ensures
            final(self).wf(),
            final(self)@ == spec_subscribe(old(self)@, p),
            r is Ok <==> !spec_contains(old(self)@, p),
            r is Err ==> r->Err_0 == Error::AlreadySubscribed && final(self)@ == old(self)@,
    {
        if self.contains_port(&p) {
            return Err(Error::AlreadySubscribed);
        }
        let n = self.entries.len();
        let pn = p.entry_num();
        let mut k: usize = 0;
        while k < n && self.entries[k].entry_num() <= pn
            invariant
                n == self.entries.len(),
                k <= n,
                pn as nat == p.num_spec(),
                forall|j: int| 0 <= j < k ==> (#[trigger] self.entries@[j].num_spec()) <= pn as nat,
            decreases n - k,
        {
            k += 1;
        }
        proof {
            lemma_insert_position_unique(self@, p.num_spec(), k as int);
            lemma_spec_insert_wf(self@, p);
        }
        self.entries.insert(k, p);
        Ok(())
    }

    /// Remove the entry equal, as a descriptor, to `p`, and return a
    /// snapshot of what remains subscribed.
    pub fn remove_entry(&mut self, p: &E) -> (r: Result<Vec<E>, Error>)
        requires
            old(self).wf(),
        ensures
            final(self).wf(),
            !spec_contains(old(self)@, *p) ==> r is Err && r->Err_0 == Error::NotSubscribed
                && final(self)@ == old(self)@,
            spec_contains(old(self)@, *p) ==> final(self)@ == old(self)@.remove(
                first_match(old(self)@, *p),
            ) && r is Ok && r->Ok_0@ == final(self)@,
    {
        let n = self.entries.len();
        let mut i: usize = 0;
        while i < n
            invariant
                self@ == old(self)@,
                registry_wf(self@),
                n == self.entries.len(),
                i <= n,
                forall|j: int| 0 <= j < i ==> !(#[trigger] self.entries@[j].same_spec(*p)),
            decreases n - i,
        {
            if self.entries[i].same_entry(p) {
                proof {
                    lemma_first_match_unique(self@, *p, i as int);
                    lemma_remove_preserves_wf(self@, i as int);
                }
                self.entries.remove(i);
                return Ok(self.snapshot());
            }
            i += 1;
        }
        Err(Error::NotSubscribed)
    }

    /// Remove the first entry whose enumeration index is `port_num`, and
    /// return a snapshot of what remains subscribed.
    pub fn remove_by_num(&mut self, port_num: usize) -> (r: Result<Vec<E>, Error>)
        requires
            old(self).wf(),
        ensures
            final(self).wf(),
            !spec_contains_num(old(self)@, port_num as nat) ==> r is Err && r->Err_0
                == Error::NotSubscribed && final(self)@ == old(self)@,
            spec_contains_num(old(self)@, port_num as nat) ==> final(self)@ == old(self)@.remove(
                first_num_match(old(self)@, port_num as nat),
            ) && r is Ok && r->Ok_0@ == final(self)@,
    {
        let n = self.entries.len();
        let mut i: usize = 0;
        while i < n
            invariant
                self@ == old(self)@,
                registry_wf(self@),
                n == self.entries.len(),
                i <= n,
                forall|j: int|
                    0 <= j < i ==> (#[trigger] self.entries@[j].num_spec()) != port_num as nat,
            decreases n - i,
        {
            if self.entries[i].entry_num() == port_num {
                proof {
                    lemma_first_num_match_unique(self@, port_num as nat, i as int);
                    lemma_remove_preserves_wf(self@, i as int);
                }
                self.entries.remove(i);
                return Ok(self.snapshot());
            }
            i += 1;
        }
        Err(Error::NotSubscribed)
    }

    /// Remove every entry.
    pub fn clear(&mut self)
        ensures
            final(self)@ == Seq::<E>::empty(),
            final(self).wf(),
    {
        self.entries.clear();
    }

    /// A snapshot copy of the current contents, in registry order.
    pub fn snapshot(&self) -> (r: Vec<E>)
        ensures
            r@ == self@,
    {
        let n = self.entries.len();
        let mut out: Vec<E> = Vec::new();
        let mut i: usize = 0;
        while i < n
            invariant
                n == self.entries.len(),
                i <= n,
                out@ == self.entries@.take(i as int),
            decreases n - i,
        {
            out.push(self.entries[i].duplicate());
            assert(out@ =~= self.entries@.take(i + 1));
            i += 1;
        }
        assert(out@ =~= self.entries@);
        out
    }
}

} // verus!
