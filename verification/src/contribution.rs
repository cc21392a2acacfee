//! What a validator puts forward for the next block.

use vstd::prelude::*;

#[allow(unused_imports)]
use crate::time::{clock_said, duration_nanos, is_now_secs, is_secs_of};
use crate::time::unix_now_secs;
#[allow(unused_imports)]
use crate::types::byte_strings;
use rand::distributions::Standard;
use rand::Rng;
#[allow(unused_imports)]
use std::time::Duration;

verus! {

/// Number of random bytes to generate per epoch.
///
/// Currently, we want twenty u32s worth of random data to generated on each epoch.
pub const RANDOM_BYTES_PER_EPOCH: usize = 4 * 20;

/// What a validator puts forward for the next block.
#[derive(Clone, Eq, PartialEq, Debug, Hash)]
pub struct Contribution {
    /// The serialised transactions.
    pub transactions: Vec<Vec<u8>>,
    /// The time at which the contribution was made, in seconds since the UNIX epoch.
    pub timestamp: u64,
    /// Random data for on-chain randomness.
    pub random_data: Vec<u8>,
}

/// A contribution as mathematical sequences.
#[verifier::ext_equal]
pub struct ContributionView {
    /// The serialised transactions.
    pub transactions: Seq<Seq<u8>>,
    /// The time at which the contribution was made.
    pub timestamp: u64,
    /// Random data.
    pub random_data: Seq<u8>,
}

impl View for Contribution {
    type V = ContributionView;

    open spec fn view(&self) -> ContributionView {
        ContributionView {
            transactions: byte_strings(self.transactions@),
            timestamp: self.timestamp,
            random_data: self.random_data@,
        }
    }
}

/// Samples `rand::thread_rng` with `rand::distributions::Standard`. The bytes are left to chance;
/// there are as many as asked for.
#[verifier::external_body]
fn random_bytes(count: usize) -> (bytes: Vec<u8>)
    ensures
        bytes@.len() == count,
{
    rand::thread_rng().sample_iter(&Standard).take(count).collect()
}

/// Whether these are the random bytes of an epoch that were drawn when they were asked for.
pub closed spec fn random_drawn(bytes: Vec<u8>) -> bool {
    call_ensures(random_bytes, (RANDOM_BYTES_PER_EPOCH,), bytes)
}

/// Random bytes can only come from drawing them.
proof fn law_random_bytes_drawn(bytes: Vec<u8>)
    requires
        random_drawn(bytes),
    ensures
        call_ensures(random_bytes, (RANDOM_BYTES_PER_EPOCH,), bytes),
        bytes@.len() == 80,
{
}

/// Whether this is what making a contribution of the given transactions gave.
pub open spec fn was_made(transactions: Vec<Vec<u8>>, made: Option<Contribution>) -> bool {
    call_ensures(Contribution::new, (transactions,), made)
}

impl Contribution {
    /// The amount of random data is fixed.
    pub open spec fn well_formed(self) -> bool {
        self.random_data@.len() == RANDOM_BYTES_PER_EPOCH
    }

    /// Puts a contribution together from its parts.
    pub fn from_parts(transactions: Vec<Vec<u8>>, timestamp: u64, random_data: Vec<u8>) -> (made:
        Contribution)
        requires
            random_data@.len() == RANDOM_BYTES_PER_EPOCH,
        ensures
            made == (Contribution { transactions, timestamp, random_data }),
            made.well_formed(),
    {
        Contribution { transactions, timestamp, random_data }
    }

    /// Makes a contribution at the given time, or nothing if the time is not available.
    pub fn made_at(transactions: Vec<Vec<u8>>, now: Option<u64>, random_data: Vec<u8>) -> (made:
        Option<Contribution>)
        requires
            random_data@.len() == RANDOM_BYTES_PER_EPOCH,
        ensures
            made == (match now {
                Some(timestamp) => Some(Contribution { transactions, timestamp, random_data }),
                None => None,
            }),
    {
        match now {
            Some(timestamp) => Some(Contribution::from_parts(transactions, timestamp, random_data)),
            None => None,
        }
    }

    /// Makes a contribution of the given serialised transactions, with the current time and fresh
    /// random data, or nothing if the time is not available.
    pub fn new(transactions: Vec<Vec<u8>>) -> (made: Option<Contribution>)
        ensures
            made matches Some(contribution) ==> {
                &&& contribution.transactions == transactions
                &&& exists|elapsed: Option<Duration>|
                    is_secs_of(Some(contribution.timestamp), elapsed)
                &&& contribution.well_formed()
                &&& is_now_secs(Some(contribution.timestamp))
                &&& random_drawn(contribution.random_data)
            },
            made is None ==> is_now_secs(None),
    {
        let now = unix_now_secs();
        let made = Contribution::made_at(transactions, now, random_bytes(RANDOM_BYTES_PER_EPOCH));
        proof {
            let elapsed = choose|elapsed: Option<Duration>| is_secs_of(now, elapsed);
            assert(made matches Some(contribution) ==> is_secs_of(
                Some(contribution.timestamp),
                elapsed,
            ));
        }
        made
    }
}

/// A contribution holds the transactions that it is made of, the time on the clock in whole seconds,
/// and as much random data as an epoch needs, drawn for it. Without a time there is none.
pub proof fn law_contribution_is_fresh(transactions: Vec<Vec<u8>>, made: Option<Contribution>)
    requires
        was_made(transactions, made),
    ensures
        made matches Some(contribution) ==> {
            &&& contribution.transactions == transactions
            &&& contribution.random_data@.len() == 80
            &&& random_drawn(contribution.random_data)
            &&& exists|span: Duration| #[trigger]
                clock_said(Some(span)) && contribution.timestamp * 1_000_000_000 <= duration_nanos(
                    span,
                ) < (contribution.timestamp + 1) * 1_000_000_000
        },
        made is None ==> clock_said(None),
{
    match made {
        Some(contribution) => {
            let elapsed = choose|elapsed: Option<Duration>| #[trigger]
                clock_said(elapsed) && is_secs_of(Some(contribution.timestamp), elapsed);
            assert(clock_said(Some(elapsed.unwrap())));
        },
        None => {
            let elapsed = choose|elapsed: Option<Duration>| #[trigger]
                clock_said(elapsed) && is_secs_of(None, elapsed);
            assert(clock_said(elapsed));
        },
    }
}

/// Making a contribution is asking `Contribution::new`.
pub proof fn law_making_asks(transactions: Vec<Vec<u8>>, made: Option<Contribution>)
    requires
        was_made(transactions, made),
    ensures
        call_ensures(Contribution::new, (transactions,), made),
{
}

/// At a given time a contribution has exactly the given parts, and without a time there is none.
pub proof fn law_contribution_parts(
    transactions: Vec<Vec<u8>>,
    now: Option<u64>,
    random_data: Vec<u8>,
    made: Option<Contribution>,
)
    requires
        random_data@.len() == 80,
        call_ensures(Contribution::made_at, (transactions, now, random_data), made),
    ensures
        made is Some == now is Some,
        made matches Some(contribution) ==> {
            &&& contribution.transactions == transactions
            &&& Some(contribution.timestamp) == now
            &&& contribution.random_data == random_data
        },
{
}

/// The mathematical value of a contribution has its transactions, byte by byte, its time and its
/// random data.
pub proof fn law_contribution_view(contribution: Contribution)
    ensures
        contribution@.transactions.len() == contribution.transactions@.len(),
        forall|i: int|
            0 <= i < contribution.transactions@.len() ==> (#[trigger] contribution@.transactions[i])
                == contribution.transactions@[i]@,
        contribution@.timestamp == contribution.timestamp,
        contribution@.random_data == contribution.random_data@,
{
}

/// A contribution that is put together has the given parts.
pub proof fn law_contribution_put_together(
    transactions: Vec<Vec<u8>>,
    timestamp: u64,
    random_data: Vec<u8>,
    made: Contribution,
)
    requires
        random_data@.len() == 80,
        call_ensures(Contribution::from_parts, (transactions, timestamp, random_data), made),
    ensures
        made.transactions == transactions,
        made.timestamp == timestamp,
        made.random_data == random_data,
{
}

} // verus!
