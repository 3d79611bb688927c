use vstd::prelude::*;
use vstd::set_lib::{lemma_int_range, set_int_range};

verus! {

/// Error raised while configuring a simulation.
#[derive(Debug, Clone, Copy, PartialEq, Eq, Structural)]
pub enum ConfigurationError {
    /// The short-lease probability `short_num / short_den` is not a value in `[0, 1]`.
    ProbabilityOutOfRange,
    /// The cache capacity must be positive.
    ZeroCapacity,
}

/// The lease choice made for one reference: a short and a long lease and the
/// probability `short_num / short_den` of choosing the short one.
#[derive(Debug, Clone, Copy)]
pub struct LeaseProfile {
    short_lease: usize,
    long_lease: usize,
    short_num: u64,
    short_den: u64,
}

impl LeaseProfile {
    pub closed spec fn short_lease_spec(self) -> usize {
        self.short_lease
    }

    pub closed spec fn long_lease_spec(self) -> usize {
        self.long_lease
    }

    pub closed spec fn short_num_spec(self) -> u64 {
        self.short_num
    }

    pub closed spec fn short_den_spec(self) -> u64 {
        self.short_den
    }

    /// The probability is a fraction with a positive denominator that lies in `[0, 1]`.
    pub open spec fn is_valid(self) -> bool {
        &&& self.short_den_spec() > 0
        &&& self.short_num_spec() <= self.short_den_spec()
    }

    #[verifier::type_invariant]
    spec fn inv(self) -> bool {
        self.is_valid()
    }

    /// Whether a draw taken uniformly from `[0, short_den)` selects the short lease.
    pub open spec fn picks_short(self, draw: int) -> bool {
        draw < self.short_num_spec()
    }

    /// The lease that a draw from `[0, short_den)` selects.
    pub open spec fn lease_for_draw(self, draw: int) -> usize {
        if self.picks_short(draw) {
            self.short_lease_spec()
        } else {
            self.long_lease_spec()
        }
    }

    /// `lease` is what some draw from `[0, short_den)` selects.
    pub open spec fn may_select(self, lease: usize) -> bool {
        exists|d: int| 0 <= d < self.short_den_spec() && lease == self.lease_for_draw(d)
    }

    /// Builds a profile; fails unless `short_num / short_den` is a probability.
    pub fn new(short_lease: usize, long_lease: usize, short_num: u64, short_den: u64) -> (r: Result<
        LeaseProfile,
        ConfigurationError,
    >)
        ensures
            r is Err <==> (short_den == 0 || short_num > short_den),
            r is Err ==> r == Err::<LeaseProfile, ConfigurationError>(
                ConfigurationError::ProbabilityOutOfRange,
            ),
            r matches Ok(p) ==> {
                &&& p.short_lease_spec() == short_lease
                &&& p.long_lease_spec() == long_lease
                &&& p.short_num_spec() == short_num
                &&& p.short_den_spec() == short_den
            },
    {
        if short_den == 0 || short_num > short_den {
            Err(ConfigurationError::ProbabilityOutOfRange)
        } else {
            Ok(LeaseProfile { short_lease, long_lease, short_num, short_den })
        }
    }

    /// Selects the lease for a draw from `[0, short_den)`: the short lease when
    /// `draw < short_num`, the long lease otherwise (so a tie goes to the long lease).
    pub fn choose_lease(&self, draw: u64) -> (r: usize)
        ensures
            r == self.lease_for_draw(draw as int),
            self.short_num_spec() == self.short_den_spec() && draw < self.short_den_spec()
                ==> r == self.short_lease_spec(),
            self.short_num_spec() == 0 ==> r == self.long_lease_spec(),
    {
        if draw < self.short_num {
            self.short_lease
        } else {
            self.long_lease
        }
    }

    pub fn short_lease(&self) -> (r: usize)
        ensures
            r == self.short_lease_spec(),
    {
        self.short_lease
    }

    pub fn long_lease(&self) -> (r: usize)
        ensures
            r == self.long_lease_spec(),
    {
        self.long_lease
    }

    /// The probability of the short lease, as `(short_num, short_den)`.
    pub fn short_probability(&self) -> (r: (u64, u64))
        ensures
            r == (self.short_num_spec(), self.short_den_spec()),
            r.1 > 0 && r.0 <= r.1,
    {
        proof {
            use_type_invariant(self);
        }
        (self.short_num, self.short_den)
    }

    /// Draws uniformly from `[0, short_den)` and selects the lease for that draw.
    pub fn sample(&self) -> (r: usize)
        ensures
            self.may_select(r),
            r == self.short_lease_spec() || r == self.long_lease_spec(),
            self.short_num_spec() == self.short_den_spec() ==> r == self.short_lease_spec(),
            self.short_num_spec() == 0 ==> r == self.long_lease_spec(),
    {
        let draw = self.draw();
        self.choose_lease(draw)
    }

    /// A draw taken uniformly from `[0, short_den)`.
    pub fn draw(&self) -> (r: u64)
        ensures
            r < self.short_den_spec(),
    {
        proof {
            use_type_invariant(self);
        }
        draw_below(self.short_den)
    }
}

/// The draws from `[0, short_den)` that select the short lease.
pub open spec fn short_draws(p: LeaseProfile) -> Set<int> {
    Set::new(|d: int| 0 <= d < p.short_den_spec() && p.picks_short(d))
}

/// Of the `short_den` equally likely draws, exactly `short_num` select the short
/// lease: a uniform draw selects it with probability `short_num / short_den`.
pub proof fn lemma_short_draw_count(p: LeaseProfile)
    requires
        p.is_valid(),
    ensures
        short_draws(p).finite(),
        short_draws(p).len() == p.short_num_spec(),
{
    assert(short_draws(p) =~= set_int_range(0, p.short_num_spec() as int));
    lemma_int_range(0, p.short_num_spec() as int);
}

/// How many of `draws` fall below `short_num`.
pub open spec fn count_short_draws(p: LeaseProfile, draws: Seq<u64>) -> nat
    decreases draws.len(),
{
    if draws.len() == 0 {
        0
    } else {
        count_short_draws(p, draws.drop_last()) + if p.picks_short(draws.last() as int) {
            1nat
        } else {
            0nat
        }
    }
}

/// How many of `draws` select `lease`.
pub open spec fn count_selecting(p: LeaseProfile, draws: Seq<u64>, lease: usize) -> nat
    decreases draws.len(),
{
    if draws.len() == 0 {
        0
    } else {
        count_selecting(p, draws.drop_last(), lease) + if p.lease_for_draw(draws.last() as int)
            == lease {
            1nat
        } else {
            0nat
        }
    }
}

/// Over any run of draws, the short lease is selected exactly as often as a draw
/// falls below `short_num`, and a distinct long lease on all the other draws.
pub proof fn lemma_selection_counts(p: LeaseProfile, draws: Seq<u64>)
    requires
        p.short_lease_spec() != p.long_lease_spec(),
    ensures
        count_selecting(p, draws, p.short_lease_spec()) == count_short_draws(p, draws),
        count_selecting(p, draws, p.long_lease_spec()) == draws.len() - count_short_draws(p, draws),
    decreases draws.len(),
{
    if draws.len() > 0 {
        lemma_selection_counts(p, draws.drop_last());
    }
}

/// Relies on rand 0.8's `thread_rng` and `Rng::gen_range`: a value drawn uniformly
/// from the half-open range `0..bound`, which lies in it. `gen_range` panics only on
/// an empty range; `thread_rng` panics only when the system cannot seed it.
#[verifier::external_body]
fn draw_below(bound: u64) -> (r: u64)
    requires
        bound > 0,
    ensures
        r < bound,
{
    rand::Rng::gen_range(&mut rand::thread_rng(), 0..bound)
}

} // verus!
