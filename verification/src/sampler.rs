//! Constrained random sampling of the session's city pair.
//!
//! A session needs two distinct cities that both meet the population
//! threshold. The sampler draws uniformly random candidate identifiers in
//! the dataset's identifier range, never querying the same identifier twice
//! in a round thanks to a per-round tried set, batches two fresh identifiers
//! per query round, and keeps qualifying cities until it has its pair. The
//! draw budget is bounded, so exhaustion surfaces as an error instead of an
//! endless loop.

use vstd::prelude::*;

verus! {

use crate::city::City;
use crate::city::CityRecord;
use crate::city::city_of_record;
use crate::city::record_qualifies;
use crate::city::validate_record;
use crate::error::GameError;

/// Relies on rand::random_range over an inclusive integer range: the result
/// lies in the range. The one input it panics on, an empty range, is ruled
/// out here.
#[verifier::external_body]
fn random_fid(lo: u32, hi: u32) -> (r: u32)
    requires
        lo <= hi,
    ensures
        lo <= r <= hi,
{
    rand::random_range(lo..=hi)
}

/// The number of cities a difficulty tier plays with; the hardest tier uses
/// every eligible city in the dataset, and an unrecognized tier falls back
/// to the easiest.
pub fn city_count_for_difficulty(difficulty: u32, total_eligible: u32) -> (r: u32)
    ensures
        difficulty == 0 ==> r == 10,
        difficulty == 1 ==> r == 100,
        difficulty == 2 ==> r == 1000,
        difficulty == 3 ==> r == total_eligible,
        difficulty > 3 ==> r == 10,
{
    match difficulty {
        0 => 10,
        1 => 100,
        2 => 1000,
        3 => total_eligible,
        _ => 10,
    }
}

/// The minimum population a city must have this session, taken from the
/// population of the requested-count-th largest city. A ranked record whose
/// population is missing fails the setup rather than counting as zero.
pub fn resolve_threshold(ranked_population: Option<u32>) -> (r: Result<u32, GameError>)
    ensures
        r is Ok <==> ranked_population is Some,
        ranked_population is Some ==> r == Ok::<u32, GameError>(ranked_population->0),
        r is Err ==> r->Err_0 is BackendQuery,
{
    match ranked_population {
        Some(p) => Ok(p),
        None => Err(GameError::BackendQuery),
    }
}

/// Whether any of the collected cities carries this identifier.
pub open spec fn cities_have_fid(cities: Seq<City>, fid: u32) -> bool {
    exists|i: int| 0 <= i < cities.len() && cities[i].fid == fid
}

fn vec_contains_fid(v: &Vec<u32>, fid: u32) -> (r: bool)
    ensures
        r == v@.contains(fid),
{
    let mut i: usize = 0;
    while i < v.len()
        invariant
            i <= v@.len(),
            forall|j: int| 0 <= j < i ==> v@[j] != fid,
        decreases v@.len() - i,
    {
        if v[i] == fid {
            return true;
        }
        i = i + 1;
    }
    false
}

fn cities_contain_fid(v: &Vec<City>, fid: u32) -> (r: bool)
    ensures
        r == cities_have_fid(v@, fid),
{
    let mut i: usize = 0;
    while i < v.len()
        invariant
            i <= v@.len(),
            forall|j: int| 0 <= j < i ==> v@[j].fid != fid,
        decreases v@.len() - i,
    {
        if v[i].fid == fid {
            return true;
        }
        i = i + 1;
    }
    false
}

/// What one round of absorption leaves collected: walking the fetched
/// records in order, a record is kept exactly when there is still room for
/// a second city, it qualifies under the threshold, and its identifier is
/// not collected yet.
pub open spec fn absorbed(acc: Seq<City>, found: Seq<CityRecord>, threshold: u32) -> Seq<City>
    decreases found.len(),
{
    if found.len() == 0 {
        acc
    } else {
        let rec = found[0];
        let acc2 = if acc.len() < 2 && record_qualifies(rec, threshold) && !cities_have_fid(
            acc,
            rec.fid,
        ) {
            acc.push(city_of_record(rec))
        } else {
            acc
        };
        absorbed(acc2, found.drop_first(), threshold)
    }
}

/// The state of one pair-sampling run: the identifier range and population
/// threshold it samples under, the identifiers tried so far, and the
/// qualifying cities collected so far.
pub struct PairSampler {
    /// Smallest identifier in the dataset.
    pub min_fid: u32,
    /// Largest identifier in the dataset.
    pub max_fid: u32,
    /// Population a city must reach to qualify.
    pub min_population: u32,
    /// Identifiers already drawn this run; never queried twice.
    pub tried: Vec<u32>,
    /// Qualifying cities collected so far, in draw order; at most two.
    pub collected: Vec<City>,
}

impl PairSampler {
    /// The sampler's invariant: a sane identifier range, a duplicate-free
    /// tried set inside that range, and at most two collected cities that
    /// all qualify and carry pairwise distinct identifiers.
    pub open spec fn wf(&self) -> bool {
        &&& self.min_fid <= self.max_fid
        &&& self.tried@.no_duplicates()
        &&& forall|i: int|
            0 <= i < self.tried@.len() ==> self.min_fid <= #[trigger] self.tried@[i]
                <= self.max_fid
        &&& self.collected@.len() <= 2
        &&& forall|i: int|
            0 <= i < self.collected@.len() ==> (#[trigger] self.collected@[i]).population
                >= self.min_population && self.collected@[i].wf()
        &&& forall|i: int, j: int|
            0 <= i < j < self.collected@.len() ==> self.collected@[i].fid
                != self.collected@[j].fid
    }

    /// Starts a sampling run over an inclusive identifier range under a
    /// population threshold.
    pub fn new(min_fid: u32, max_fid: u32, min_population: u32) -> (s: PairSampler)
        requires
            min_fid <= max_fid,
        ensures
            s.wf(),
            s.min_fid == min_fid,
            s.max_fid == max_fid,
            s.min_population == min_population,
            s.tried@.len() == 0,
            s.collected@.len() == 0,
    {
        PairSampler { min_fid, max_fid, min_population, tried: Vec::new(), collected: Vec::new() }
    }

    /// Whether the run must go on: fewer than two cities are collected.
    pub fn needs_more(&self) -> (r: bool)
        ensures
            r == (self.collected@.len() < 2),
    {
        self.collected.len() < 2
    }

    /// Marks an identifier as tried. True means it was fresh and may be
    /// queried; false means it was already tried this run, so the caller
    /// must not query it again.
    pub fn try_fid(&mut self, fid: u32) -> (fresh: bool)
        requires
            old(self).wf(),
            old(self).min_fid <= fid <= old(self).max_fid,
        ensures
            final(self).wf(),
            fresh == !old(self).tried@.contains(fid),
            fresh ==> final(self).tried@ == old(self).tried@.push(fid),
            !fresh ==> final(self).tried@ == old(self).tried@,
            final(self).collected@ == old(self).collected@,
            final(self).min_fid == old(self).min_fid,
            final(self).max_fid == old(self).max_fid,
            final(self).min_population == old(self).min_population,
    {
        if vec_contains_fid(&self.tried, fid) {
            false
        } else {
            self.tried.push(fid);
            true
        }
    }

    /// Draws one query round's batch: two uniformly random, fresh
    /// identifiers in the range. Every random draw costs one attempt, and an
    /// exhausted budget fails the round, so a sparse dataset surfaces as an
    /// error instead of an endless loop.
    pub fn draw_batch(&mut self, max_attempts: u32) -> (r: Result<Vec<u32>, GameError>)
        requires
            old(self).wf(),
        ensures
            final(self).wf(),
            final(self).collected@ == old(self).collected@,
            final(self).min_fid == old(self).min_fid,
            final(self).max_fid == old(self).max_fid,
            final(self).min_population == old(self).min_population,
            old(self).tried@.is_prefix_of(final(self).tried@),
            r is Ok ==> r->Ok_0@.len() == 2 && r->Ok_0@[0] != r->Ok_0@[1] && final(self).tried@
                == old(self).tried@ + r->Ok_0@ && forall|i: int|
                0 <= i < 2 ==> old(self).min_fid <= #[trigger] r->Ok_0@[i] <= old(self).max_fid
                    && !old(self).tried@.contains(r->Ok_0@[i]),
            r is Err ==> r->Err_0 is BackendQuery && final(self).tried@.len() <= old(
                self,
            ).tried@.len() + 1,
    {
        let mut batch: Vec<u32> = Vec::new();
        let mut attempts: u32 = 0;
        while batch.len() < 2 && attempts < max_attempts
            invariant
                self.wf(),
                self.collected@ == old(self).collected@,
                self.min_fid == old(self).min_fid,
                self.max_fid == old(self).max_fid,
                self.min_population == old(self).min_population,
                batch@.len() <= 2,
                self.tried@ == old(self).tried@ + batch@,
                forall|i: int|
                    0 <= i < batch@.len() ==> old(self).min_fid <= #[trigger] batch@[i] <= old(
                        self,
                    ).max_fid && !old(self).tried@.contains(batch@[i]),
                attempts <= max_attempts,
            decreases max_attempts - attempts,
        {
            let fid = random_fid(self.min_fid, self.max_fid);
            attempts = attempts + 1;
            let ghost tried_before = self.tried@;
            let ghost batch_before = batch@;
            if self.try_fid(fid) {
                proof {
                    assert(!old(self).tried@.contains(fid)) by {
                        assert(!tried_before.contains(fid));
                        assert forall|k: int|
                            0 <= k < old(self).tried@.len() implies old(self).tried@[k]
                            != fid by {
                            assert(tried_before[k] == old(self).tried@[k]);
                        }
                    }
                }
                batch.push(fid);
                proof {
                    assert(self.tried@ =~= old(self).tried@ + batch@);
                }
            }
        }
        if batch.len() == 2 {
            proof {
                let t = self.tried@;
                let n = old(self).tried@.len() as int;
                assert(batch@[0] == t[n] && batch@[1] == t[n + 1]);
                assert(batch@[0] != batch@[1]);
                assert(old(self).tried@.is_prefix_of(t)) by {
                    assert(old(self).tried@ =~= t.subrange(0, n));
                }
            }
            Ok(batch)
        } else {
            proof {
                assert(old(self).tried@.is_prefix_of(self.tried@)) by {
                    assert(old(self).tried@ =~= self.tried@.subrange(
                        0,
                        old(self).tried@.len() as int,
                    ));
                }
            }
            Err(GameError::BackendQuery)
        }
    }

    /// Takes in the cities fetched for a round's batch, keeping each record
    /// exactly when there is room, it qualifies under the threshold, and its
    /// identifier is not collected yet.
    pub fn absorb(&mut self, found: Vec<CityRecord>)
        requires
            old(self).wf(),
        ensures
            final(self).wf(),
            final(self).tried@ == old(self).tried@,
            final(self).min_fid == old(self).min_fid,
            final(self).max_fid == old(self).max_fid,
            final(self).min_population == old(self).min_population,
            final(self).collected@ == absorbed(
                old(self).collected@,
                found@,
                old(self).min_population,
            ),
    {
        let mut rest = found;
        while rest.len() > 0
            invariant
                self.wf(),
                self.tried@ == old(self).tried@,
                self.min_fid == old(self).min_fid,
                self.max_fid == old(self).max_fid,
                self.min_population == old(self).min_population,
                absorbed(self.collected@, rest@, self.min_population) == absorbed(
                    old(self).collected@,
                    found@,
                    old(self).min_population,
                ),
            decreases rest@.len(),
        {
            let ghost rest_before = rest@;
            let ghost acc_before = self.collected@;
            let rec = rest.remove(0);
            proof {
                assert(rest@ =~= rest_before.drop_first());
            }
            if self.collected.len() < 2 {
                let fid = rec.fid;
                if !cities_contain_fid(&self.collected, fid) {
                    match validate_record(rec, self.min_population) {
                        Ok(c) => {
                            self.collected.push(c);
                        },
                        Err(_) => {},
                    }
                }
            }
            proof {
                assert(absorbed(acc_before, rest_before, self.min_population) == absorbed(
                    self.collected@,
                    rest@,
                    self.min_population,
                ));
            }
        }
    }

    /// Hands out the sampled pair once two qualifying, distinct cities are
    /// collected: the first drawn is the start, the second the hidden
    /// target. Before that, the run is not finished and no pair exists.
    pub fn take_pair(self) -> (r: Result<(City, City), GameError>)
        requires
            self.wf(),
        ensures
            r is Ok <==> self.collected@.len() == 2,
            r is Ok ==> r->Ok_0.0 == self.collected@[0] && r->Ok_0.1 == self.collected@[1],
            r is Ok ==> r->Ok_0.0.fid != r->Ok_0.1.fid && r->Ok_0.0.population
                >= self.min_population && r->Ok_0.1.population >= self.min_population
                && r->Ok_0.0.wf() && r->Ok_0.1.wf(),
            r is Err ==> r->Err_0 is BackendQuery,
    {
        let PairSampler { collected: mut c, .. } = self;
        if c.len() == 2 {
            let first = c.remove(0);
            let second = c.remove(0);
            Ok((first, second))
        } else {
            Err(GameError::BackendQuery)
        }
    }
}

/// Law: every sampled pair is valid. In a well-formed sampler that has
/// collected its two cities, the two identifiers differ and both
/// populations reach the threshold.
pub proof fn lemma_sampled_pair_qualifies(s: PairSampler)
    requires
        s.wf(),
        s.collected@.len() == 2,
    ensures
        s.collected@[0].fid != s.collected@[1].fid,
        s.collected@[0].population >= s.min_population,
        s.collected@[1].population >= s.min_population,
{
}

} // verus!
