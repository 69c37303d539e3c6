//! The namespace prefixes and default namespace of one stylesheet parse.
use vstd::prelude::*;

verus! {

/// The URL registered for `prefix` in the list of pairs `s`, if any.
pub open spec fn prefix_lookup(s: Seq<(u32, String)>, prefix: u32) -> Option<Seq<char>> {
    if exists|i: int| 0 <= i < s.len() && (#[trigger] s[i]).0 == prefix {
        let i = choose|i: int| 0 <= i < s.len() && (#[trigger] s[i]).0 == prefix;
        Some(s[i].1@)
    } else {
        None
    }
}

/// Whether no prefix occurs twice in `s`.
pub open spec fn prefixes_unique(s: Seq<(u32, String)>) -> bool {
    forall|i: int, j: int|
        0 <= i < s.len() && 0 <= j < s.len() && i != j ==> (#[trigger] s[i]).0 != (#[trigger] s[j]).0
}

/// Sets `url` for `prefix` in the pair list, in place of an earlier URL of
/// that prefix or at the end.
fn insert_prefix(prefixes: &mut Vec<(u32, String)>, prefix: u32, url: String)
    requires
        prefixes_unique(old(prefixes)@),
    ensures
        prefixes_unique(final(prefixes)@),
        prefix_lookup(final(prefixes)@, prefix) == Some(url@),
        forall|q: u32|
            q != prefix ==> #[trigger] prefix_lookup(final(prefixes)@, q) == prefix_lookup(
                old(prefixes)@,
                q,
            ),
{
    let ghost old_prefixes = prefixes@;
    let mut i: usize = 0;
    while i < prefixes.len()
        invariant
            prefixes@ == old_prefixes,
            old(prefixes)@ == old_prefixes,
            prefixes_unique(old_prefixes),
            0 <= i <= old_prefixes.len(),
            forall|a: int| 0 <= a < i ==> (#[trigger] old_prefixes[a]).0 != prefix,
        decreases old_prefixes.len() - i,
    {
        if prefixes[i].0 == prefix {
            prefixes.set(i, (prefix, url));
            proof {
                let s = prefixes@;
                assert(prefixes_unique(s));
                assert(s[i as int].0 == prefix);
                assert forall|q: u32| q != prefix implies #[trigger] prefix_lookup(s, q)
                    == prefix_lookup(old_prefixes, q) by {
                    assert forall|a: int| 0 <= a < s.len() implies ((#[trigger] s[a]).0 == q
                        <==> old_prefixes[a].0 == q) by {
                        if a == i {
                        }
                    }
                    if exists|a: int| 0 <= a < s.len() && (#[trigger] s[a]).0 == q {
                        let a = choose|a: int| 0 <= a < s.len() && (#[trigger] s[a]).0 == q;
                        assert(a != i);
                        assert(old_prefixes[a] == s[a]);
                        assert(old_prefixes[a].0 == q);
                        let b = choose|b: int|
                            0 <= b < old_prefixes.len() && (#[trigger] old_prefixes[b]).0 == q;
                        assert(a == b);
                        assert(prefix_lookup(s, q) == Some(s[a].1@));
                        assert(prefix_lookup(old_prefixes, q) == Some(old_prefixes[b].1@));
                    } else {
                        assert forall|a: int| 0 <= a < old_prefixes.len() implies (#[trigger] old_prefixes[a]).0 != q by {
                            assert(s[a].0 != q);
                        }
                    }
                }
            }
            return;
        }
        i = i + 1;
    }
    prefixes.push((prefix, url));
    proof {
        let s = prefixes@;
        assert(s[old_prefixes.len() as int].0 == prefix);
        assert forall|q: u32| q != prefix implies #[trigger] prefix_lookup(s, q)
            == prefix_lookup(old_prefixes, q) by {
            if exists|a: int| 0 <= a < s.len() && (#[trigger] s[a]).0 == q {
                let a = choose|a: int| 0 <= a < s.len() && (#[trigger] s[a]).0 == q;
                assert(old_prefixes[a].0 == q);
            }
            if exists|a: int| 0 <= a < old_prefixes.len() && (#[trigger] old_prefixes[a]).0 == q {
                let a = choose|a: int| 0 <= a < old_prefixes.len() && (#[trigger] old_prefixes[a]).0 == q;
                assert(s[a].0 == q);
            }
        }
    }
}

/// The default namespace and the prefix-to-URL mapping of a stylesheet;
/// prefixes are interned identifiers.
pub struct NamespaceTable {
    default: Option<String>,
    prefixes: Vec<(u32, String)>,
}

impl NamespaceTable {
    #[verifier::type_invariant]
    spec fn inv(&self) -> bool {
        prefixes_unique(self.prefixes@)
    }

    /// The default namespace URL, if any.
    pub closed spec fn default_spec(&self) -> Option<Seq<char>> {
        match self.default {
            Some(u) => Some(u@),
            None => None,
        }
    }

    /// The URL registered for `prefix`, if any.
    pub closed spec fn lookup_spec(&self, prefix: u32) -> Option<Seq<char>> {
        prefix_lookup(self.prefixes@, prefix)
    }

    /// A table with the given default namespace and no prefix.
    pub fn new(default: Option<String>) -> (r: NamespaceTable)
        ensures
            r.default_spec() == (match default {
                Some(u) => Some(u@),
                None => None::<Seq<char>>,
            }),
            forall|p: u32| (#[trigger] r.lookup_spec(p)) is None,
    {
        NamespaceTable { default, prefixes: Vec::new() }
    }

    /// Registers `url` for `prefix`, replacing an earlier URL of that prefix.
    pub fn add_prefix(&mut self, prefix: u32, url: String)
        ensures
            final(self).default_spec() == old(self).default_spec(),
            final(self).lookup_spec(prefix) == Some(url@),
            forall|q: u32|
                q != prefix ==> #[trigger] final(self).lookup_spec(q) == old(self).lookup_spec(q),
    {
        proof {
            use_type_invariant(&*self);
        }
        let mut prefixes: Vec<(u32, String)> = Vec::new();
        core::mem::swap(&mut prefixes, &mut self.prefixes);
        insert_prefix(&mut prefixes, prefix, url);
        core::mem::swap(&mut prefixes, &mut self.prefixes);
    }

    /// The default namespace URL.
    pub fn default_namespace(&self) -> (r: Option<String>)
        ensures
            (match r {
                Some(u) => Some(u@),
                None => None::<Seq<char>>,
            }) == self.default_spec(),
    {
        match &self.default {
            Some(u) => Some(u.clone()),
            None => None,
        }
    }

    /// The URL registered for `prefix`; `None` for an unregistered prefix.
    pub fn namespace_for_prefix(&self, prefix: u32) -> (r: Option<String>)
        ensures
            (match r {
                Some(u) => Some(u@),
                None => None::<Seq<char>>,
            }) == self.lookup_spec(prefix),
    {
        proof {
            use_type_invariant(self);
        }
        let mut i: usize = 0;
        while i < self.prefixes.len()
            invariant
                prefixes_unique(self.prefixes@),
                0 <= i <= self.prefixes@.len(),
                forall|a: int| 0 <= a < i ==> (#[trigger] self.prefixes@[a]).0 != prefix,
            decreases self.prefixes@.len() - i,
        {
            if self.prefixes[i].0 == prefix {
                proof {
                    let s = self.prefixes@;
                    assert(s[i as int].0 == prefix);
                    let k = choose|k: int| 0 <= k < s.len() && (#[trigger] s[k]).0 == prefix;
                    assert(s[k].0 == s[i as int].0);
                }
                return Some(self.prefixes[i].1.clone());
            }
            i = i + 1;
        }
        None
    }
}

} // verus!
