//! Which sound plays on which output: the routes of a sound system built
//! from configuration, checked as the sounds are loaded one by one.
use vstd::prelude::*;

verus! {

/// Why the sounds and outputs of a configuration do not fit together.
#[derive(Clone, Debug, PartialEq, Eq)]
pub enum RouteError {
    /// All sounds must share one sample rate: the first sound's.
    SampleRateMismatch { expected: u32, found: u32 },
    /// A sound names an output that is not configured.
    UnknownOutput(String),
}

pub open spec fn default_name() -> Seq<char> {
    "default"@
}

pub open spec fn names(v: Seq<String>) -> Seq<Seq<char>> {
    Seq::new(v.len(), |i: int| v[i]@)
}

/// The outputs a sound plays on: the ones it names, or the default one.
pub open spec fn targets(outputs: Seq<Seq<char>>) -> Seq<Seq<char>> {
    if outputs.len() == 0 {
        seq![default_name()]
    } else {
        outputs
    }
}

/// Whether `known[i]` is the first entry equal to `name`.
pub open spec fn first_index(known: Seq<Seq<char>>, name: Seq<char>, i: int) -> bool {
    0 <= i < known.len() && known[i] == name && forall|j: int| 0 <= j < i ==> known[j] != name
}

/// Whether `names[t]` is the first of `names` that `known` lacks.
pub open spec fn first_unknown(names: Seq<Seq<char>>, known: Seq<Seq<char>>, t: int) -> bool {
    &&& 0 <= t < names.len()
    &&& !known.contains(names[t])
    &&& forall|u: int| 0 <= u < t ==> known.contains(#[trigger] names[u])
}

/// The configured outputs with the default one added when it is missing.
pub fn with_default_output(configured: Vec<String>) -> (r: Vec<String>)
    ensures
        names(r@) == if names(configured@).contains(default_name()) {
            names(configured@)
        } else {
            names(configured@).push(default_name())
        },
{
    let mut outputs = configured;
    let n = outputs.len();
    let default = String::from_str("default");
    let mut i: usize = 0;
    while i < n
        invariant
            n == outputs@.len(),
            outputs@ == configured@,
            default@ == default_name(),
            i <= n,
            forall|j: int| 0 <= j < i ==> outputs@[j]@ != default_name(),
        decreases n - i,
    {
        if outputs[i] == default {
            proof {
                assert(names(configured@)[i as int] == default_name());
            }
            return outputs;
        }
        i += 1;
    }
    proof {
        assert forall|j: int| 0 <= j < names(configured@).len() implies names(configured@)[j]
            != default_name() by {
            assert(names(configured@)[j] == outputs@[j]@);
        }
    }
    outputs.push(default);
    proof {
        assert(names(outputs@) =~= names(configured@).push(default_name()));
    }
    outputs
}

/// The routes found so far: for each, the sound (by its place in the
/// configuration) and the output (by its place in the known outputs).
pub struct RoutePlan {
    pub rate: Option<u32>,
    pub routes: Vec<(usize, usize)>,
    pub used: Vec<bool>,
}

/// Finds the first place of `name` in `known`.
fn find_output(known: &Vec<String>, name: &String) -> (r: Option<usize>)
    ensures
        match r {
            Some(i) => first_index(names(known@), name@, i as int),
            None => !names(known@).contains(name@),
        },
{
    let n = known.len();
    let mut i: usize = 0;
    while i < n
        invariant
            n == known@.len(),
            i <= n,
            forall|j: int| 0 <= j < i ==> known@[j]@ != name@,
        decreases n - i,
    {
        if known[i] == *name {
            return Some(i);
        }
        i += 1;
    }
    proof {
        assert forall|j: int| 0 <= j < names(known@).len() implies names(known@)[j] != name@ by {
            assert(names(known@)[j] == known@[j]@);
        }
    }
    None
}

impl RoutePlan {
    /// A plan with no sound yet, over `n_outputs` known outputs.
    pub fn new(n_outputs: usize) -> (r: Self)
        ensures
            r.rate is None,
            r.routes@.len() == 0,
            r.used@.len() == n_outputs,
            forall|i: int| 0 <= i < n_outputs ==> !(#[trigger] r.used@[i]),
    {
        let mut used: Vec<bool> = Vec::new();
        let mut i: usize = 0;
        while i < n_outputs
            invariant
                i <= n_outputs,
                used@.len() == i,
                forall|j: int| 0 <= j < i ==> !(#[trigger] used@[j]),
            decreases n_outputs - i,
        {
            used.push(false);
            i += 1;
        }
        RoutePlan { rate: None, routes: Vec::new(), used }
    }

    /// Adds the sound at place `sound` of the configuration, at sample rate
    /// `rate`, on the outputs it names (the default one when it names none).
    /// The first sound fixes the sample rate. On an error the plan is left as
    /// it was: a sound at another rate, or the first output name that is not
    /// known.
    pub fn add_sound(
        &mut self,
        sound: usize,
        rate: u32,
        outputs: &Vec<String>,
        known: &Vec<String>,
    ) -> (r: Result<(), RouteError>)
        requires
            old(self).used@.len() == known@.len(),
        ensures
            final(self).used@.len() == known@.len(),
            ({
                let ts = targets(names(outputs@));
                let ks = names(known@);
                match r {
                    Err(RouteError::SampleRateMismatch { expected, found }) => {
                        &&& old(self).rate == Some(expected)
                        &&& found == rate
                        &&& expected != rate
                        &&& *final(self) == *old(self)
                    },
                    Err(RouteError::UnknownOutput(name)) => {
                        &&& (old(self).rate is None || old(self).rate == Some(rate))
                        &&& exists|t: int| #[trigger] first_unknown(ts, ks, t) && ts[t] == name@
                        &&& *final(self) == *old(self)
                    },
                    Ok(()) => {
                        &&& (old(self).rate is None || old(self).rate == Some(rate))
                        &&& final(self).rate == Some(rate)
                        &&& final(self).routes@.len() == old(self).routes@.len() + ts.len()
                        &&& final(self).routes@.subrange(0, old(self).routes@.len() as int)
                            == old(self).routes@
                        &&& forall|t: int|
                            0 <= t < ts.len() ==> {
                                let route = #[trigger] final(self).routes@[old(
                                    self,
                                ).routes@.len() + t];
                                route.0 == sound && first_index(ks, ts[t], route.1 as int)
                            }
                        &&& forall|i: int|
                            0 <= i < known@.len() ==> (#[trigger] final(self).used@[i] <==> (old(
                                self,
                            ).used@[i] || exists|t: int|
                                0 <= t < ts.len() && first_index(ks, ts[t], i)))
                    },
                }
            }),
    {
        if let Some(expected) = self.rate {
            if expected != rate {
                return Err(RouteError::SampleRateMismatch { expected, found: rate });
            }
        }
        let mut wanted: Vec<String> = Vec::new();
        if outputs.len() == 0 {
            wanted.push(String::from_str("default"));
        } else {
            let mut k: usize = 0;
            while k < outputs.len()
                invariant
                    *self == *old(self),
                    k <= outputs@.len(),
                    wanted@.len() == k,
                    forall|j: int| 0 <= j < k ==> (#[trigger] wanted@[j])@ == outputs@[j]@,
                decreases outputs@.len() - k,
            {
                wanted.push(outputs[k].clone());
                k += 1;
            }
            proof {
                assert(names(wanted@) =~= names(outputs@));
            }
        }
        proof {
            if outputs@.len() == 0 {
                assert(names(wanted@) =~= seq![default_name()]);
            }
        }
        let ghost ts = targets(names(outputs@));
        let ghost ks = names(known@);
        assert(names(wanted@) == ts);
        let mut found: Vec<usize> = Vec::new();
        let mut k: usize = 0;
        while k < wanted.len()
            invariant
                *self == *old(self),
                old(self).rate is None || old(self).rate == Some(rate),
                self.used@.len() == known@.len(),
                ts == targets(names(outputs@)),
                names(wanted@) == ts,
                ks == names(known@),
                k <= wanted@.len(),
                found@.len() == k,
                forall|t: int| 0 <= t < k ==> first_index(ks, ts[t], #[trigger] found@[t] as int),
            decreases wanted@.len() - k,
        {
            match find_output(known, &wanted[k]) {
                Some(i) => found.push(i),
                None => {
                    let name = wanted[k].clone();
                    proof {
                        assert(ts[k as int] == wanted@[k as int]@);
                        assert(name@ == ts[k as int]);
                        assert(!ks.contains(name@));
                        assert forall|u: int| 0 <= u < k implies ks.contains(#[trigger] ts[u]) by {
                            assert(ks[found@[u] as int] == ts[u]);
                        }
                        assert(first_unknown(ts, ks, k as int));
                    }
                    return Err(RouteError::UnknownOutput(name));
                },
            }
            k += 1;
        }
        assert(old(self).rate is None || old(self).rate == Some(rate));
        let ghost old_routes = self.routes@;
        let ghost old_used = self.used@;
        let mut t: usize = 0;
        while t < found.len()
            invariant
                found@.len() == ts.len(),
                ts == targets(names(outputs@)),
                ks == names(known@),
                forall|u: int| 0 <= u < ts.len() ==> first_index(ks, ts[u], #[trigger] found@[u] as int),
                t <= found@.len(),
                self.used@.len() == known@.len(),
                old_used.len() == known@.len(),
                self.routes@.len() == old_routes.len() + t,
                self.routes@.subrange(0, old_routes.len() as int) == old_routes,
                forall|u: int|
                    0 <= u < t ==> {
                        let route = #[trigger] self.routes@[old_routes.len() + u];
                        route.0 == sound && route.1 == found@[u]
                    },
                forall|i: int|
                    0 <= i < known@.len() ==> (#[trigger] self.used@[i] <==> (old_used[i] || exists|
                        u: int,
                    |
                        0 <= u < t && found@[u] == i)),
            decreases found@.len() - t,
        {
            let i = found[t];
            assert(first_index(ks, ts[t as int], i as int));
            let ghost before_routes = self.routes@;
            let ghost before_used = self.used@;
            self.routes.push((sound, i));
            self.used.set(i, true);
            proof {
                assert(self.routes@.subrange(0, old_routes.len() as int) =~= before_routes.subrange(
                    0,
                    old_routes.len() as int,
                ));
                assert forall|u: int| 0 <= u < t + 1 implies {
                    let route = #[trigger] self.routes@[old_routes.len() + u];
                    route.0 == sound && route.1 == found@[u]
                } by {
                    if u < t {
                        assert(self.routes@[old_routes.len() + u] == before_routes[old_routes.len()
                            + u]);
                    }
                }
                assert forall|j: int| 0 <= j < known@.len() implies (#[trigger] self.used@[j] <==> (
                old_used[j] || exists|u: int| 0 <= u < t + 1 && found@[u] == j)) by {
                    if j != i {
                        assert(self.used@[j] == before_used[j]);
                        if exists|u: int| 0 <= u < t + 1 && found@[u] == j {
                            let u = choose|u: int| 0 <= u < t + 1 && found@[u] == j;
                            assert(u < t);
                        }
                    } else {
                        assert(found@[t as int] == j);
                    }
                }
            }
            t += 1;
        }
        self.rate = Some(rate);
        proof {
            assert forall|u: int| 0 <= u < ts.len() implies {
                let route = #[trigger] self.routes@[old_routes.len() + u];
                route.0 == sound && first_index(ks, ts[u], route.1 as int)
            } by {
                assert(first_index(ks, ts[u], found@[u] as int));
            }
            assert forall|j: int| 0 <= j < known@.len() implies (#[trigger] self.used@[j] <==> (
            old_used[j] || exists|u: int| 0 <= u < ts.len() && first_index(ks, ts[u], j))) by {
                if exists|u: int| 0 <= u < ts.len() && first_index(ks, ts[u], j) {
                    let u = choose|u: int| 0 <= u < ts.len() && first_index(ks, ts[u], j);
                    assert(first_index(ks, ts[u], found@[u] as int));
                    assert(found@[u] == j);
                }
                if exists|u: int| 0 <= u < ts.len() && found@[u] == j {
                    let u = choose|u: int| 0 <= u < ts.len() && found@[u] == j;
                    assert(first_index(ks, ts[u], found@[u] as int));
                }
            }
        }
        Ok(())
    }
}

} // verus!
