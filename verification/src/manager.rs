//! The registry of running adapters, by account name, and the checks made
//! before adding, removing or reconnecting one at runtime.

use vstd::prelude::*;

use crate::error::{ErrorV, GatewayError};
use crate::text::{chars_eq, chars_of, push_str, str_eq, string_from_chars};

verus! {

/// Running adapters of type `A`, by name; each name occurs once.
pub struct AdapterRegistry<A> {
    entries: Vec<(String, A)>,
}

/// The names of a list of entries.
pub open spec fn entry_names<A>(s: Seq<(String, A)>) -> Seq<Seq<char>> {
    Seq::new(s.len(), |i: int| s[i].0@)
}

/// Whether a list of names has no repeats.
pub open spec fn distinct(s: Seq<Seq<char>>) -> bool {
    forall|i: int, j: int| 0 <= i < j < s.len() ==> s[i] != s[j]
}

impl<A> AdapterRegistry<A> {
    #[verifier::type_invariant]
    spec fn names_unique(self) -> bool {
        distinct(entry_names(self.entries@))
    }

    /// The registered names, in registration order.
    pub closed spec fn names(&self) -> Seq<Seq<char>> {
        entry_names(self.entries@)
    }

    /// An empty registry.
    pub fn new() -> (r: AdapterRegistry<A>)
        ensures
            r.names().len() == 0,
    {
        AdapterRegistry { entries: Vec::new() }
    }

    fn index_of(&self, name: &str) -> (r: Option<usize>)
        ensures
            match r {
                Some(i) => i < self.names().len() && self.names()[i as int] == name@,
                None => !self.names().contains(name@),
            },
    {
        let mut i: usize = 0;
        while i < self.entries.len()
            invariant
                i <= self.entries.len(),
                forall|j: int| 0 <= j < i ==> self.entries@[j].0@ != name@,
            decreases self.entries.len() - i,
        {
            if str_eq(self.entries[i].0.as_str(), name) {
                return Some(i);
            }
            i = i + 1;
        }
        proof {
            if self.names().contains(name@) {
                let k = choose|k: int| 0 <= k < self.names().len() && self.names()[k] == name@;
                assert(self.entries@[k].0@ == name@);
            }
        }
        None
    }

    /// Whether an adapter is registered under `name`.
    pub fn has(&self, name: &str) -> (r: bool)
        ensures
            r == self.names().contains(name@),
    {
        self.index_of(name).is_some()
    }

    /// Registers an adapter under `name`, replacing one registered under
    /// the same name.
    pub fn insert(&mut self, name: String, adapter: A)
        ensures
            final(self).names().contains(name@),
            forall|n: Seq<char>| n != name@ ==> (final(self).names().contains(n) <==> old(self).names().contains(n)),
    {
        proof {
            use_type_invariant(&*self);
        }
        let ghost old_names = self.names();
        match self.index_of(name.as_str()) {
            Some(i) => {
                let ghost nm = name@;
                let mut entries = Vec::new();
                std::mem::swap(&mut entries, &mut self.entries);
                entries.set(i, (name, adapter));
                assert(entry_names(entries@) =~= old_names.update(i as int, nm));
                assert forall|a: int, b: int| 0 <= a < b < entry_names(entries@).len() implies entry_names(entries@)[a] != entry_names(entries@)[b] by {
                    assert(old_names[a] != old_names[b]);
                }
                self.entries = entries;
                proof {
                    assert(self.names()[i as int] == nm);
                    assert forall|n: Seq<char>| n != nm implies (self.names().contains(n) <==> old_names.contains(n)) by {
                        if self.names().contains(n) {
                            let k = choose|k: int| 0 <= k < self.names().len() && self.names()[k] == n;
                            assert(old_names[k] == n);
                        }
                        if old_names.contains(n) {
                            let k = choose|k: int| 0 <= k < old_names.len() && old_names[k] == n;
                            assert(self.names()[k] == n);
                        }
                    }
                }
            },
            None => {
                let ghost nm = name@;
                let mut entries = Vec::new();
                std::mem::swap(&mut entries, &mut self.entries);
                entries.push((name, adapter));
                assert(entry_names(entries@) =~= old_names.push(nm));
                self.entries = entries;
                proof {
                    assert(self.names()[old_names.len() as int] == nm);
                    assert forall|n: Seq<char>| n != nm implies (self.names().contains(n) <==> old_names.contains(n)) by {
                        if self.names().contains(n) {
                            let k = choose|k: int| 0 <= k < self.names().len() && self.names()[k] == n;
                            assert(old_names[k] == n);
                        }
                        if old_names.contains(n) {
                            let k = choose|k: int| 0 <= k < old_names.len() && old_names[k] == n;
                            assert(self.names()[k] == n);
                        }
                    }
                }
            },
        }
    }

    /// Removes and returns the adapter registered under `name`.
    pub fn remove(&mut self, name: &str) -> (r: Option<A>)
        ensures
            r is Some <==> old(self).names().contains(name@),
            !final(self).names().contains(name@),
            forall|n: Seq<char>| n != name@ ==> (final(self).names().contains(n) <==> old(self).names().contains(n)),
    {
        proof {
            use_type_invariant(&*self);
        }
        let ghost old_names = self.names();
        match self.index_of(name) {
            Some(i) => {
                let mut entries = Vec::new();
                std::mem::swap(&mut entries, &mut self.entries);
                let (_, a) = entries.remove(i);
                assert(entry_names(entries@) =~= old_names.remove(i as int));
                self.entries = entries;
                proof {
                    assert forall|k: int| 0 <= k < self.names().len() implies self.names()[k] != name@ by {
                        if k < i {
                            assert(old_names[k] != old_names[i as int]);
                        } else {
                            assert(old_names[k + 1] != old_names[i as int]);
                        }
                    }
                    assert forall|n: Seq<char>| n != name@ implies (self.names().contains(n) <==> old_names.contains(n)) by {
                        if self.names().contains(n) {
                            let k = choose|k: int| 0 <= k < self.names().len() && self.names()[k] == n;
                            if k < i {
                                assert(old_names[k] == n);
                            } else {
                                assert(old_names[k + 1] == n);
                            }
                        }
                        if old_names.contains(n) {
                            let k = choose|k: int| 0 <= k < old_names.len() && old_names[k] == n;
                            if k < i {
                                assert(self.names()[k] == n);
                            } else {
                                assert(k != i);
                                assert(self.names()[k - 1] == n);
                            }
                        }
                    }
                }
                Some(a)
            },
            None => None,
        }
    }

    /// The registered names, in registration order.
    pub fn list_names(&self) -> (r: Vec<String>)
        ensures
            r@.len() == self.names().len(),
            forall|i: int| 0 <= i < r@.len() ==> (#[trigger] r@[i])@ == self.names()[i],
    {
        let mut out: Vec<String> = Vec::new();
        let mut i: usize = 0;
        while i < self.entries.len()
            invariant
                i <= self.entries.len(),
                out@.len() == i,
                forall|j: int| 0 <= j < i ==> (#[trigger] out@[j])@ == self.entries@[j].0@,
            decreases self.entries.len() - i,
        {
            out.push(self.entries[i].0.clone());
            i = i + 1;
        }
        out
    }
}

/// Whether a backend type can be started at runtime.
pub open spec fn addable_type(t: Seq<char>) -> bool {
    t == "lagrange"@ || t == "napcat"@
}

/// The check before adding an adapter: the name must be free and the
/// backend type one that can be started at runtime.
pub open spec fn add_check(exists: bool, name: Seq<char>, backend_type: Seq<char>) -> Result<(), ErrorV> {
    if exists {
        Err(ErrorV::Internal("adapter '"@ + name + "' already exists"@))
    } else if !addable_type(backend_type) {
        Err(ErrorV::Internal("unknown backend type: "@ + backend_type))
    } else {
        Ok(())
    }
}

/// Checks a request to add an adapter.
pub fn check_add<A>(registry: &AdapterRegistry<A>, name: &str, backend_type: &str) -> (r: Result<(), GatewayError>)
    ensures
        crate::failover::unit_view(r) == add_check(registry.names().contains(name@), name@, backend_type@),
{
    if registry.has(name) {
        let mut buf: Vec<char> = Vec::new();
        push_str(&mut buf, "adapter '");
        push_str(&mut buf, name);
        push_str(&mut buf, "' already exists");
        assert(buf@ =~= "adapter '"@ + name@ + "' already exists"@);
        return Err(GatewayError::Internal(string_from_chars(buf.as_slice())));
    }
    if !(str_eq(backend_type, "lagrange") || str_eq(backend_type, "napcat")) {
        let mut buf: Vec<char> = Vec::new();
        push_str(&mut buf, "unknown backend type: ");
        push_str(&mut buf, backend_type);
        assert(buf@ =~= "unknown backend type: "@ + backend_type@);
        return Err(GatewayError::Internal(string_from_chars(buf.as_slice())));
    }
    Ok(())
}

/// The error for an adapter name that is not registered.
pub fn not_found_error(name: &str) -> (r: GatewayError)
    ensures
        r@ == ErrorV::Internal("adapter '"@ + name@ + "' not found"@),
{
    let mut buf: Vec<char> = Vec::new();
    push_str(&mut buf, "adapter '");
    push_str(&mut buf, name);
    push_str(&mut buf, "' not found");
    assert(buf@ =~= "adapter '"@ + name@ + "' not found"@);
    GatewayError::Internal(string_from_chars(buf.as_slice()))
}

} // verus!
