//! The domain filter: the topics the worker subscribes to, checked against
//! the fixed set of known domains.

use vstd::prelude::*;

verus! {

/// A known domain; each is consumed from the topic of the same name.
#[derive(Clone, Copy, Debug, PartialEq, Eq, Structural)]
pub enum Domain {
    Articles,
    Backpacks,
    Circles,
    Events,
    Users,
}

/// The domain a name denotes, if any.
pub open spec fn domain_named(name: Seq<char>) -> Option<Domain> {
    if name == seq!['a', 'r', 't', 'i', 'c', 'l', 'e', 's'] {
        Some(Domain::Articles)
    } else if name == seq!['b', 'a', 'c', 'k', 'p', 'a', 'c', 'k', 's'] {
        Some(Domain::Backpacks)
    } else if name == seq!['c', 'i', 'r', 'c', 'l', 'e', 's'] {
        Some(Domain::Circles)
    } else if name == seq!['e', 'v', 'e', 'n', 't', 's'] {
        Some(Domain::Events)
    } else if name == seq!['u', 's', 'e', 'r', 's'] {
        Some(Domain::Users)
    } else {
        None
    }
}

/// The domains named among the first `n` names.
pub open spec fn named_domains(names: Seq<Seq<char>>, n: int) -> Set<Domain> {
    Set::new(|d: Domain| exists|i: int| 0 <= i < n && domain_named(#[trigger] names[i]) == Some(d))
}

/// Whether each of the first `n` names denotes a domain.
pub open spec fn all_known(names: Seq<Seq<char>>, n: int) -> bool {
    forall|i: int| 0 <= i < n ==> (#[trigger] domain_named(names[i])) is Some
}

impl Domain {
    /// The domain named `name`, if it is one of the known ones.
    pub fn parse(name: &str) -> (r: Option<Domain>)
        ensures
            r == domain_named(name@),
    {
        let d = Domain::Articles;
        if Self::same_name(name, d) {
            return Some(d);
        }
        let d = Domain::Backpacks;
        if Self::same_name(name, d) {
            return Some(d);
        }
        let d = Domain::Circles;
        if Self::same_name(name, d) {
            return Some(d);
        }
        let d = Domain::Events;
        if Self::same_name(name, d) {
            return Some(d);
        }
        let d = Domain::Users;
        if Self::same_name(name, d) {
            return Some(d);
        }
        None
    }

    /// Whether `name` is exactly the name of `d`.
    fn same_name(name: &str, d: Domain) -> (r: bool)
        ensures
            r == (domain_named(name@) == Some(d)),
    {
        let topic = d.topic();
        crate::envelope::same_text(name, topic)
    }

    /// The topic this domain is consumed from.
    pub fn topic(&self) -> (r: &'static str)
        ensures
            domain_named(r@) == Some(*self),
    {
        proof {
            reveal_strlit("articles");
            reveal_strlit("backpacks");
            reveal_strlit("circles");
            reveal_strlit("events");
            reveal_strlit("users");
        }
        match self {
            Domain::Articles => {
                assert("articles"@ =~= seq!['a', 'r', 't', 'i', 'c', 'l', 'e', 's']);
                "articles"
            },
            Domain::Backpacks => {
                assert("backpacks"@ =~= seq!['b', 'a', 'c', 'k', 'p', 'a', 'c', 'k', 's']);
                "backpacks"
            },
            Domain::Circles => {
                assert("circles"@ =~= seq!['c', 'i', 'r', 'c', 'l', 'e', 's']);
                "circles"
            },
            Domain::Events => {
                assert("events"@ =~= seq!['e', 'v', 'e', 'n', 't', 's']);
                "events"
            },
            Domain::Users => {
                assert("users"@ =~= seq!['u', 's', 'e', 'r', 's']);
                "users"
            },
        }
    }
}

/// Checks a list of domain names and gathers the domains they denote, each
/// once, in the order of first mention. `Err(i)`: `names[i]` is the first
/// name that denotes no domain.
pub fn domain_filter(names: &Vec<String>) -> (r: Result<Vec<Domain>, usize>)
    ensures
        match r {
            Ok(ds) => all_known(names@.map_values(|s: String| s@), names.len() as int)
                && ds@.to_set() == named_domains(names@.map_values(|s: String| s@), names.len() as int)
                && ds@.no_duplicates(),
            Err(i) => i < names.len() && domain_named(names@[i as int]@) is None
                && all_known(names@.map_values(|s: String| s@), i as int),
        },
{
    let ghost views = names@.map_values(|s: String| s@);
    let mut out: Vec<Domain> = Vec::new();
    let mut i: usize = 0;
    while i < names.len()
        invariant
            i <= names.len(),
            views == names@.map_values(|s: String| s@),
            all_known(views, i as int),
            out@.to_set() == named_domains(views, i as int),
            out@.no_duplicates(),
        decreases names.len() - i,
    {
        match Domain::parse(names[i].as_str()) {
            None => {
                return Err(i);
            },
            Some(d) => {
                let mut seen = false;
                let mut j: usize = 0;
                while j < out.len()
                    invariant
                        j <= out.len(),
                        seen == exists|k: int| 0 <= k < j && out@[k] == d,
                    decreases out.len() - j,
                {
                    if out[j] == d {
                        seen = true;
                    }
                    j = j + 1;
                }
                let ghost before = out@;
                if !seen {
                    out.push(d);
                }
                proof {
                    assert(views[i as int] == names@[i as int]@);
                    assert(out@.to_set() =~= named_domains(views, i + 1)) by {
                        assert forall|x: Domain| out@.to_set().contains(x) implies named_domains(
                            views,
                            i + 1,
                        ).contains(x) by {
                            if before.contains(x) {
                                assert(before.to_set().contains(x));
                                let k = choose|k: int| 0 <= k < i && domain_named(views[k]) == Some(x);
                                assert(0 <= k < i + 1 && domain_named(views[k]) == Some(x));
                            } else {
                                assert(out@.contains(x));
                                let k = choose|k: int| 0 <= k < out@.len() && out@[k] == x;
                                assert(x == d);
                            }
                        }
                        assert forall|x: Domain| named_domains(views, i + 1).contains(x) implies out@.to_set().contains(x) by {
                            let k = choose|k: int| 0 <= k < i + 1 && domain_named(#[trigger] views[k]) == Some(x);
                            if k < i {
                                assert(named_domains(views, i as int).contains(x));
                                assert(before.to_set().contains(x));
                                assert(before.contains(x));
                                let m = choose|m: int| 0 <= m < before.len() && before[m] == x;
                                assert(out@[m] == x);
                            } else {
                                if !seen {
                                    assert(out@[out@.len() - 1] == x);
                                } else {
                                    let m = choose|m: int| 0 <= m < out@.len() && out@[m] == d;
                                    assert(out@[m] == x);
                                }
                            }
                        }
                    }
                }
            },
        }
        i = i + 1;
    }
    Ok(out)
}

} // verus!
