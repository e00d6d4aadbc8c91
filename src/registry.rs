//! The registry that coalesces requests for one logical completion onto a
//! single session: each key names at most one session handle, and a key that
//! is already registered is answered with its handle, whatever the caller
//! would have created.
use vstd::prelude::*;
use crate::text::same_text;

verus! {

/// The keys of a sequence of registrations are pairwise distinct.
pub open spec fn unique_keys<H>(s: Seq<(String, H)>) -> bool {
    forall|i: int, j: int|
        0 <= i < s.len() && 0 <= j < s.len() && i != j ==> (#[trigger] s[i]).0@ != (
        #[trigger] s[j]).0@
}

/// `k` is registered at some position of `s`.
pub open spec fn has_key<H>(s: Seq<(String, H)>, k: Seq<char>) -> bool {
    exists|i: int| 0 <= i < s.len() && (#[trigger] s[i]).0@ == k
}

/// The mapping from key to handle that registrations `s` make.
pub open spec fn as_map<H>(s: Seq<(String, H)>) -> Map<Seq<char>, H> {
    Map::new(
        |k: Seq<char>| has_key(s, k),
        |k: Seq<char>| s[choose|i: int| 0 <= i < s.len() && (#[trigger] s[i]).0@ == k].1,
    )
}

/// With distinct keys, each registration is what its key maps to.
proof fn lemma_map_at<H>(s: Seq<(String, H)>, i: int)
    requires
        unique_keys(s),
        0 <= i < s.len(),
    ensures
        as_map(s).contains_key(s[i].0@),
        as_map(s)[s[i].0@] == s[i].1,
{
    let k = s[i].0@;
    assert(has_key(s, k));
    let j = choose|j: int| 0 <= j < s.len() && (#[trigger] s[j]).0@ == k;
    assert(j == i);
}

/// Registering a new key at the end adds it to the mapping, and the keys
/// stay distinct.
proof fn lemma_map_push<H>(s: Seq<(String, H)>, key: String, h: H)
    requires
        unique_keys(s),
        !has_key(s, key@),
    ensures
        unique_keys(s.push((key, h))),
        as_map(s.push((key, h))) == as_map(s).insert(key@, h),
{
    let t = s.push((key, h));
    assert forall|i: int, j: int|
        0 <= i < t.len() && 0 <= j < t.len() && i != j implies (#[trigger] t[i]).0@ != (
        #[trigger] t[j]).0@ by {
        if i == s.len() {
            assert(t[j] == s[j]);
        } else if j == s.len() {
            assert(t[i] == s[i]);
        } else {
            assert(t[i] == s[i] && t[j] == s[j]);
        }
    }
    assert forall|k: Seq<char>| #[trigger] as_map(t).contains_key(k) == as_map(s).insert(
        key@,
        h,
    ).contains_key(k) by {
        if has_key(s, k) {
            let i = choose|i: int| 0 <= i < s.len() && (#[trigger] s[i]).0@ == k;
            assert(t[i] == s[i]);
        }
        if k == key@ {
            assert(t[s.len() as int] == (key, h));
        }
        if has_key(t, k) {
            let i = choose|i: int| 0 <= i < t.len() && (#[trigger] t[i]).0@ == k;
            if i < s.len() {
                assert(t[i] == s[i]);
            }
        }
    }
    assert forall|k: Seq<char>| #[trigger] as_map(t).contains_key(k) implies as_map(t)[k]
        == as_map(s).insert(key@, h)[k] by {
        let i = choose|i: int| 0 <= i < t.len() && (#[trigger] t[i]).0@ == k;
        lemma_map_at(t, i);
        if i < s.len() {
            assert(t[i] == s[i]);
            lemma_map_at(s, i);
        }
    }
    assert(as_map(t) =~= as_map(s).insert(key@, h));
}

/// Removing a registration removes its key from the mapping.
proof fn lemma_map_remove<H>(s: Seq<(String, H)>, i: int)
    requires
        unique_keys(s),
        0 <= i < s.len(),
    ensures
        unique_keys(s.remove(i)),
        as_map(s.remove(i)) == as_map(s).remove(s[i].0@),
{
    let t = s.remove(i);
    let key = s[i].0@;
    assert forall|a: int| 0 <= a < t.len() implies #[trigger] t[a] == s[if a < i {
        a
    } else {
        a + 1
    }] by {}
    assert forall|a: int, b: int|
        0 <= a < t.len() && 0 <= b < t.len() && a != b implies (#[trigger] t[a]).0@ != (
        #[trigger] t[b]).0@ by {
        let a1 = if a < i {
            a
        } else {
            a + 1
        };
        let b1 = if b < i {
            b
        } else {
            b + 1
        };
        assert(t[a] == s[a1] && t[b] == s[b1]);
    }
    assert forall|k: Seq<char>| #[trigger] as_map(t).contains_key(k) == as_map(s).remove(
        key,
    ).contains_key(k) by {
        if has_key(t, k) {
            let a = choose|a: int| 0 <= a < t.len() && (#[trigger] t[a]).0@ == k;
            let a1 = if a < i {
                a
            } else {
                a + 1
            };
            assert(t[a] == s[a1]);
        }
        if has_key(s, k) && k != key {
            let a = choose|a: int| 0 <= a < s.len() && (#[trigger] s[a]).0@ == k;
            if a < i {
                assert(t[a] == s[a]);
            } else {
                assert(t[a - 1] == s[a]);
            }
        }
    }
    assert forall|k: Seq<char>| #[trigger] as_map(t).contains_key(k) implies as_map(t)[k]
        == as_map(s).remove(key)[k] by {
        let a = choose|a: int| 0 <= a < t.len() && (#[trigger] t[a]).0@ == k;
        let a1 = if a < i {
            a
        } else {
            a + 1
        };
        assert(t[a] == s[a1]);
        lemma_map_at(t, a);
        lemma_map_at(s, a1);
    }
    assert(as_map(t) =~= as_map(s).remove(key));
}

/// What `get_or_create` leaves registered: the map as it was where `key` is
/// registered, else the map with `key` registered to the new handle.
pub open spec fn after_get_or_create<H>(m: Map<Seq<char>, H>, key: Seq<char>, fresh: H) -> Map<
    Seq<char>,
    H,
> {
    if m.contains_key(key) {
        m
    } else {
        m.insert(key, fresh)
    }
}

/// Process-wide registry of sessions under coalescing keys.
pub struct OngoingPromptManager<H> {
    prompts: Vec<(String, H)>,
}

impl<H> View for OngoingPromptManager<H> {
    type V = Map<Seq<char>, H>;

    closed spec fn view(&self) -> Map<Seq<char>, H> {
        as_map(self.prompts@)
    }
}

impl<H> OngoingPromptManager<H> {
    pub closed spec fn wf(&self) -> bool {
        unique_keys(self.prompts@)
    }

    /// An empty registry.
    pub fn new() -> (r: Self)
        ensures
            r.wf(),
            r@ == Map::<Seq<char>, H>::empty(),
    {
        let r = OngoingPromptManager { prompts: Vec::new() };
        assert(r@ =~= Map::<Seq<char>, H>::empty());
        r
    }

    /// The position of `key`.
    fn find(&self, key: &str) -> (r: Option<usize>)
        requires
            self.wf(),
        ensures
            r matches Some(i) ==> i < self.prompts@.len() && self.prompts@[i as int].0@ == key@,
            r is None ==> !has_key(self.prompts@, key@),
    {
        let mut i: usize = 0;
        while i < self.prompts.len()
            invariant
                i <= self.prompts@.len(),
                forall|j: int| 0 <= j < i ==> (#[trigger] self.prompts@[j]).0@ != key@,
            decreases self.prompts@.len() - i,
        {
            if same_text(self.prompts[i].0.as_str(), key) {
                return Some(i);
            }
            i = i + 1;
        }
        None
    }

    /// The handle registered under `key`.
    pub fn get(&self, key: &str) -> (r: Option<&H>)
        requires
            self.wf(),
        ensures
            r matches Some(h) ==> self@.contains_key(key@) && *h == self@[key@],
            r is None ==> !self@.contains_key(key@),
    {
        match self.find(key) {
            Some(i) => {
                proof {
                    lemma_map_at(self.prompts@, i as int);
                }
                Some(&self.prompts[i].1)
            },
            None => None,
        }
    }

    /// Registers a handle that `create` makes under `key`, unless `key` is
    /// registered already; returns whether it created one. Either way, `get`
    /// then answers `key` with the handle that every caller shares.
    pub fn get_or_create<F: FnOnce() -> H>(&mut self, key: String, create: F) -> (created: bool)
        requires
            old(self).wf(),
            create.requires(()),
        ensures
            final(self).wf(),
            created == !old(self)@.contains_key(key@),
            final(self)@ == after_get_or_create(old(self)@, key@, final(self)@[key@]),
            final(self)@.contains_key(key@),
            created ==> create.ensures((), final(self)@[key@]),
    {
        match self.find(key.as_str()) {
            Some(i) => {
                proof {
                    lemma_map_at(self.prompts@, i as int);
                }
                false
            },
            None => {
                let h = create();
                proof {
                    lemma_map_push(self.prompts@, key, h);
                }
                self.prompts.push((key, h));
                true
            },
        }
    }

    /// Registers `prompt` under `key` as well, replacing what `key` named.
    pub fn insert_additional_key(&mut self, key: String, prompt: H)
        requires
            old(self).wf(),
        ensures
            final(self).wf(),
            final(self)@ == old(self)@.insert(key@, prompt),
    {
        match self.find(key.as_str()) {
            Some(i) => {
                proof {
                    lemma_map_remove(self.prompts@, i as int);
                }
                self.prompts.remove(i);
                let ghost mid = self.prompts@;
                proof {
                    assert(!has_key(mid, key@)) by {
                        if has_key(mid, key@) {
                            assert(as_map(mid).contains_key(key@));
                        }
                    }
                    lemma_map_push(mid, key, prompt);
                    assert(as_map(mid).insert(key@, prompt) =~= old(self)@.insert(key@, prompt));
                }
                self.prompts.push((key, prompt));
            },
            None => {
                proof {
                    lemma_map_push(self.prompts@, key, prompt);
                }
                self.prompts.push((key, prompt));
            },
        }
    }

    /// Unregisters `key`, returning what it named.
    pub fn remove(&mut self, key: &str) -> (r: Option<H>)
        requires
            old(self).wf(),
        ensures
            final(self).wf(),
            final(self)@ == old(self)@.remove(key@),
            r matches Some(h) ==> old(self)@.contains_key(key@) && h == old(self)@[key@],
            r is None ==> !old(self)@.contains_key(key@),
    {
        match self.find(key) {
            Some(i) => {
                proof {
                    lemma_map_at(self.prompts@, i as int);
                    lemma_map_remove(self.prompts@, i as int);
                }
                let (_, h) = self.prompts.remove(i);
                Some(h)
            },
            None => {
                assert(old(self)@.remove(key@) =~= old(self)@);
                None
            },
        }
    }

    /// Every registered key.
    pub fn list_keys(&self) -> (r: Vec<String>)
        requires
            self.wf(),
        ensures
            r@.len() == self@.dom().len(),
            forall|k: Seq<char>| self@.contains_key(k) <==> exists|i: int|
                0 <= i < r@.len() && (#[trigger] r@[i])@ == k,
    {
        let mut r: Vec<String> = Vec::new();
        let mut i: usize = 0;
        while i < self.prompts.len()
            invariant
                i <= self.prompts@.len(),
                r@.len() == i,
                forall|j: int| 0 <= j < i ==> (#[trigger] r@[j])@ == self.prompts@[j].0@,
            decreases self.prompts@.len() - i,
        {
            r.push(self.prompts[i].0.clone());
            i = i + 1;
        }
        proof {
            lemma_dom_len(self.prompts@);
            assert forall|k: Seq<char>| self@.contains_key(k) implies exists|i: int|
                0 <= i < r@.len() && (#[trigger] r@[i])@ == k by {
                let j = choose|j: int| 0 <= j < self.prompts@.len() && (#[trigger] self.prompts@[
                    j]).0@ == k;
                assert(r@[j]@ == k);
            }
            assert forall|k: Seq<char>|
                (exists|i: int| 0 <= i < r@.len() && (#[trigger] r@[i])@ == k) implies self@.contains_key(
                k,
            ) by {
                let j = choose|j: int| 0 <= j < r@.len() && (#[trigger] r@[j])@ == k;
                assert(self.prompts@[j].0@ == k);
            }
        }
        r
    }
}

/// With unique keys there are as many registered keys as registrations.
proof fn lemma_dom_len<H>(s: Seq<(String, H)>)
    requires
        unique_keys(s),
    ensures
        as_map(s).dom().len() == s.len(),
        as_map(s).dom().finite(),
    decreases s.len(),
{
    if s.len() == 0 {
        assert(as_map(s).dom() =~= Set::<Seq<char>>::empty());
    } else {
        let t = s.drop_last();
        let last = s.last();
        assert(unique_keys(t)) by {
            assert forall|i: int, j: int|
                0 <= i < t.len() && 0 <= j < t.len() && i != j implies (#[trigger] t[i]).0@ != (
                #[trigger] t[j]).0@ by {
                assert(t[i] == s[i] && t[j] == s[j]);
            }
        }
        assert(!has_key(t, last.0@)) by {
            if has_key(t, last.0@) {
                let i = choose|i: int| 0 <= i < t.len() && (#[trigger] t[i]).0@ == last.0@;
                assert(t[i] == s[i]);
            }
        }
        lemma_dom_len(t);
        lemma_map_push(t, last.0, last.1);
        assert(t.push((last.0, last.1)) =~= s);
    }
}

/// Coalescing: two requests under one key, whichever comes first, are
/// answered with the same handle, the one the first request registered;
/// the second request's handle is never registered.
pub proof fn lemma_coalescing<H>(m: Map<Seq<char>, H>, key: Seq<char>, first: H, second: H)
    ensures
        ({
            let m1 = after_get_or_create(m, key, first);
            let m2 = after_get_or_create(m1, key, second);
            &&& m2 == m1
            &&& m2[key] == m1[key]
            &&& !m.contains_key(key) ==> m2[key] == first
        }),
{
}

} // verus!
