//! Upstream services by name, kept in the order in which they were configured.

use vstd::prelude::*;
use vstd::std_specs::cmp::PartialEqSpecImpl;

verus! {

/// No two entries carry the same service name.
pub open spec fn names_distinct(entries: Seq<(Seq<char>, Seq<char>)>) -> bool {
    forall|i: int, j: int|
        0 <= i < j < entries.len() ==> (#[trigger] entries[i]).0 != (#[trigger] entries[j]).0
}

/// Entry `i` of `entries` is the one named `name`.
pub open spec fn named_at(entries: Seq<(Seq<char>, Seq<char>)>, name: Seq<char>, i: int) -> bool {
    0 <= i < entries.len() && entries[i].0 == name
}

/// Some entry of `entries` is named `name`.
pub open spec fn has_name(entries: Seq<(Seq<char>, Seq<char>)>, name: Seq<char>) -> bool {
    exists|i: int| named_at(entries, name, i)
}

/// The position of an entry named `name`; meaningful where `has_name` holds.
pub open spec fn position_of(entries: Seq<(Seq<char>, Seq<char>)>, name: Seq<char>) -> int {
    choose|i: int| named_at(entries, name, i)
}

/// The entries read as a map from service name to base URL.
pub open spec fn as_map(entries: Seq<(Seq<char>, Seq<char>)>) -> Map<Seq<char>, Seq<char>> {
    Map::new(
        |name: Seq<char>| has_name(entries, name),
        |name: Seq<char>| entries[position_of(entries, name)].1,
    )
}

/// The entries after `name` has been bound to `url`: an entry of that name
/// keeps its place and takes the new URL, a new name goes to the end.
pub open spec fn with_binding(
    entries: Seq<(Seq<char>, Seq<char>)>,
    name: Seq<char>,
    url: Seq<char>,
) -> Seq<(Seq<char>, Seq<char>)> {
    if has_name(entries, name) {
        entries.update(position_of(entries, name), (name, url))
    } else {
        entries.push((name, url))
    }
}

/// In a sequence without repeated names, a name is found at one place only.
pub proof fn lemma_position_unique(entries: Seq<(Seq<char>, Seq<char>)>, name: Seq<char>, i: int)
    requires
        names_distinct(entries),
        named_at(entries, name, i),
    ensures
        has_name(entries, name),
        position_of(entries, name) == i,
        as_map(entries).contains_key(name),
        as_map(entries)[name] == entries[i].1,
{
    let p = position_of(entries, name);
    assert(named_at(entries, name, p));
    if p < i {
        assert(entries[p].0 != entries[i].0);
    } else if i < p {
        assert(entries[i].0 != entries[p].0);
    }
}

/// Binding a name keeps the names distinct and acts on the map as `Map::insert`.
pub proof fn lemma_with_binding(entries: Seq<(Seq<char>, Seq<char>)>, name: Seq<char>, url: Seq<char>)
    requires
        names_distinct(entries),
    ensures
        names_distinct(with_binding(entries, name, url)),
        as_map(with_binding(entries, name, url)) == as_map(entries).insert(name, url),
{
    let after = with_binding(entries, name, url);
    let at: int = if has_name(entries, name) {
        position_of(entries, name)
    } else {
        entries.len() as int
    };
    assert(named_at(after, name, at));
    assert forall|i: int, j: int| 0 <= i < j < after.len() implies (#[trigger] after[i]).0 != (
    #[trigger] after[j]).0 by {
        if has_name(entries, name) {
            assert(named_at(entries, name, at));
            assert(after[i].0 == entries[i].0);
            assert(after[j].0 == entries[j].0);
            assert(entries[i].0 != entries[j].0);
        } else {
            if j == entries.len() {
                assert(!named_at(entries, name, i));
            } else {
                assert(entries[i].0 != entries[j].0);
            }
        }
    }
    lemma_position_unique(after, name, at);
    assert forall|other: Seq<char>| other != name implies (has_name(after, other) <==> has_name(
        entries,
        other,
    )) && (has_name(entries, other) ==> as_map(after)[other] == as_map(entries)[other]) by {
        if has_name(entries, other) {
            let k = position_of(entries, other);
            assert(named_at(entries, other, k));
            assert(named_at(after, other, k));
            lemma_position_unique(after, other, k);
        }
        if has_name(after, other) {
            let k = position_of(after, other);
            assert(named_at(after, other, k));
            assert(named_at(entries, other, k));
        }
    }
    assert(as_map(after) =~= as_map(entries).insert(name, url));
}

/// The upstream services of a configuration: each service name is bound to
/// one base URL, and the services keep the order in which they were added.
#[derive(Debug)]
pub struct Upstreams {
    entries: Vec<(String, String)>,
}

impl View for Upstreams {
    type V = Map<Seq<char>, Seq<char>>;

    /// The services as a map from name to base URL.
    open spec fn view(&self) -> Map<Seq<char>, Seq<char>> {
        as_map(self.entries())
    }
}

impl Upstreams {
    /// The services as (name, URL) pairs, in the order in which they were added.
    pub closed spec fn entries(&self) -> Seq<(Seq<char>, Seq<char>)> {
        self.entries@.map_values(|e: (String, String)| (e.0@, e.1@))
    }

    #[verifier::type_invariant]
    spec fn well_formed(&self) -> bool {
        names_distinct(self.entries())
    }

    /// A map without services.
    pub fn new() -> (m: Self)
        ensures
            m.entries() == Seq::<(Seq<char>, Seq<char>)>::empty(),
            m@ == Map::<Seq<char>, Seq<char>>::empty(),
    {
        let m = Upstreams { entries: Vec::new() };
        assert(m.entries() =~= Seq::<(Seq<char>, Seq<char>)>::empty());
        assert(m@ =~= Map::<Seq<char>, Seq<char>>::empty());
        m
    }

    /// The number of services.
    pub fn len(&self) -> (n: usize)
        ensures
            n == self.entries().len(),
    {
        self.entries.len()
    }

    /// Whether there is no service at all.
    pub fn is_empty(&self) -> (b: bool)
        ensures
            b == (self.entries().len() == 0),
            b == (self@ == Map::<Seq<char>, Seq<char>>::empty()),
    {
        let b = self.entries.len() == 0;
        proof {
            if b {
                assert(self@ =~= Map::<Seq<char>, Seq<char>>::empty());
            } else {
                let first = self.entries()[0].0;
                assert(named_at(self.entries(), first, 0));
                assert(self@.contains_key(first));
            }
        }
        b
    }

    /// The name of the service at position `i`.
    pub fn name_at(&self, i: usize) -> (name: &String)
        requires
            i < self.entries().len(),
        ensures
            name@ == self.entries()[i as int].0,
    {
        &self.entries[i].0
    }

    /// The base URL of the service at position `i`.
    pub fn url_at(&self, i: usize) -> (url: &String)
        requires
            i < self.entries().len(),
        ensures
            url@ == self.entries()[i as int].1,
    {
        &self.entries[i].1
    }

    /// The position of the service named `service_name`, if it is configured.
    pub fn position(&self, service_name: &str) -> (at: Option<usize>)
        ensures
            names_distinct(self.entries()),
            match at {
                Some(i) => named_at(self.entries(), service_name@, i as int),
                None => !has_name(self.entries(), service_name@),
            },
    {
        proof {
            use_type_invariant(self);
        }
        let wanted: String = service_name.to_owned();
        let n: usize = self.entries.len();
        let mut i: usize = 0;
        while i < n
            invariant
                i <= n,
                n == self.entries().len(),
                n == self.entries@.len(),
                wanted@ == service_name@,
                names_distinct(self.entries()),
                forall|j: int| 0 <= j < i ==> !named_at(self.entries(), service_name@, j),
            decreases n - i,
        {
            if self.entries[i].0 == wanted {
                return Some(i);
            }
            i = i + 1;
        }
        None
    }

    /// The base URL bound to `service_name`, if the service is configured.
    pub fn get(&self, service_name: &str) -> (url: Option<&String>)
        ensures
            match url {
                Some(u) => self@.contains_key(service_name@) && u@ == self@[service_name@],
                None => !self@.contains_key(service_name@),
            },
    {
        match self.position(service_name) {
            Some(i) => {
                proof {
                    lemma_position_unique(self.entries(), service_name@, i as int);
                }
                Some(&self.entries[i].1)
            },
            None => None,
        }
    }

    /// Binds `name` to `url`. A service of that name keeps its place and
    /// hands back the URL it had; a new service goes to the end.
    pub fn insert(&mut self, name: String, url: String) -> (previous: Option<String>)
        ensures
            final(self).entries() == with_binding(old(self).entries(), name@, url@),
            final(self)@ == old(self)@.insert(name@, url@),
            match previous {
                Some(p) => old(self)@.contains_key(name@) && p@ == old(self)@[name@],
                None => !old(self)@.contains_key(name@),
            },
    {
        proof {
            use_type_invariant(&*self);
            lemma_with_binding(self.entries(), name@, url@);
        }
        let at: Option<usize> = self.position(name.as_str());
        let mut entries: Vec<(String, String)> = Vec::new();
        core::mem::swap(&mut self.entries, &mut entries);
        let previous: Option<String> = match at {
            Some(i) => {
                proof {
                    lemma_position_unique(old(self).entries(), name@, i as int);
                }
                let had: String = entries[i].1.clone();
                entries.set(i, (name, url));
                Some(had)
            },
            None => {
                entries.push((name, url));
                None
            },
        };
        assert(entries@.map_values(|e: (String, String)| (e.0@, e.1@)) =~= with_binding(
            old(self).entries(),
            name@,
            url@,
        ));
        self.entries = entries;
        previous
    }
}

impl Upstreams {
    /// Whether every service of `self` is a service of `other`, with the
    /// same base URL.
    pub fn within(&self, other: &Upstreams) -> (all: bool)
        ensures
            all == self@.submap_of(other@),
    {
        proof {
            use_type_invariant(self);
        }
        let n: usize = self.entries.len();
        let mut i: usize = 0;
        while i < n
            invariant
                i <= n,
                n == self.entries().len(),
                n == self.entries@.len(),
                names_distinct(self.entries()),
                forall|j: int|
                    0 <= j < i ==> other@.contains_key(#[trigger] self.entries()[j].0)
                        && other@[self.entries()[j].0] == self.entries()[j].1,
            decreases n - i,
        {
            let found: bool = match other.get(self.entries[i].0.as_str()) {
                Some(url) => *url == self.entries[i].1,
                None => false,
            };
            if !found {
                proof {
                    lemma_position_unique(self.entries(), self.entries()[i as int].0, i as int);
                }
                return false;
            }
            i = i + 1;
        }
        proof {
            assert forall|name: Seq<char>| #[trigger] self@.dom().contains(name) implies other@.dom().contains(
                name,
            ) && self@[name] == other@[name] by {
                let j = position_of(self.entries(), name);
                assert(named_at(self.entries(), name, j));
                assert(other@.contains_key(self.entries()[j].0));
            }
        }
        true
    }
}

impl PartialEq for Upstreams {
    /// Two maps are equal where they bind the same names to the same URLs,
    /// in whatever order.
    fn eq(&self, other: &Self) -> (same: bool) {
        let same: bool = self.within(other) && other.within(self);
        proof {
            if same {
                assert(self@ =~= other@);
            }
        }
        same
    }
}

impl PartialEqSpecImpl for Upstreams {
    open spec fn obeys_eq_spec() -> bool {
        true
    }

    open spec fn eq_spec(&self, other: &Self) -> bool {
        self@ == other@
    }
}

impl Clone for Upstreams {
    /// A copy with the same services in the same order.
    fn clone(&self) -> (copy: Self)
        ensures
            copy.entries() == self.entries(),
            copy@ == self@,
    {
        proof {
            use_type_invariant(self);
        }
        let n: usize = self.entries.len();
        let mut entries: Vec<(String, String)> = Vec::new();
        let mut i: usize = 0;
        while i < n
            invariant
                i <= n,
                n == self.entries@.len(),
                entries@.len() == i,
                forall|j: int|
                    0 <= j < i ==> (#[trigger] entries@[j]).0@ == self.entries@[j].0@
                        && entries@[j].1@ == self.entries@[j].1@,
            decreases n - i,
        {
            let name: String = self.entries[i].0.clone();
            let url: String = self.entries[i].1.clone();
            entries.push((name, url));
            i = i + 1;
        }
        assert(entries@.map_values(|e: (String, String)| (e.0@, e.1@)) =~= self.entries());
        Upstreams { entries }
    }
}

} // verus!
