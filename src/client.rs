//! Settings of the REST client, gathered before it is built.
use vstd::prelude::*;
use rand::Rng;
use rand::SeedableRng;

verus! {

/// How many user agents the application's list holds.
pub const USER_AGENT_COUNT: u64 = 1000;

/// Collects the token and user agent of a REST client; the application
/// builds the client from them.
#[derive(Debug)]
pub struct DiscordClientBuilder {
    pub auth: String,
    pub user_agent: String,
}

/// The first number below `bound` that a ChaCha20 generator seeded with `seed` draws.
pub uninterp spec fn chacha_first_draw(seed: u64, bound: u64) -> u64;

/// Relies on rand_chacha's ChaCha20Rng::seed_from_u64 and rand's
/// Rng::gen_range: a reproducible generator for the seed, whose first draw
/// from `0..bound` lies in that range (the range must not be empty).
#[verifier::external_body]
fn first_draw_below(seed: u64, bound: u64) -> (r: u64)
    requires
        bound > 0,
    ensures
        r < bound,
        r == chacha_first_draw(seed, bound),
{
    rand_chacha::ChaCha20Rng::seed_from_u64(seed).gen_range(0..bound)
}

impl DiscordClientBuilder {
    /// A builder for the client; the token is required.
    pub fn new(auth: &str) -> (r: DiscordClientBuilder)
        ensures
            r.auth@ == auth@,
            r.user_agent@ == Seq::<char>::empty(),
    {
        DiscordClientBuilder { auth: auth.to_owned(), user_agent: String::new() }
    }

    /// Sets the user agent.
    pub fn set_user_agent(self, user_agent: &str) -> (r: DiscordClientBuilder)
        ensures
            r.auth == self.auth,
            r.user_agent@ == user_agent@,
    {
        DiscordClientBuilder { auth: self.auth, user_agent: user_agent.to_owned() }
    }
}

/// Which line of the user-agent list a seed picks.
pub fn random_agent_index(seed: u64) -> (r: u64)
    ensures
        r < USER_AGENT_COUNT,
        r == chacha_first_draw(seed, USER_AGENT_COUNT),
{
    first_draw_below(seed, USER_AGENT_COUNT)
}

} // verus!
