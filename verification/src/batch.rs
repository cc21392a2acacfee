//! What the consensus has agreed on for one block.

use vstd::prelude::*;

use crate::contribution::Contribution;
#[allow(unused_imports)]
use crate::contribution::ContributionView;
#[allow(unused_imports)]
use crate::types::byte_strings;
use crate::types::NodeId;
use itertools::Itertools;

verus! {

/// The contributions that the validators have agreed on in one epoch.
#[derive(Debug)]
pub struct Batch {
    /// The number of the epoch.
    pub epoch: u64,
    /// The contributions by the nodes that made them, in the order of the nodes.
    pub contributions: Vec<(NodeId, Contribution)>,
}

/// A batch as mathematical sequences.
#[verifier::ext_equal]
pub struct BatchView {
    /// The number of the epoch.
    pub epoch: u64,
    /// The contributions by the nodes that made them.
    pub contributions: Seq<(NodeId, ContributionView)>,
}

impl View for Batch {
    type V = BatchView;

    open spec fn view(&self) -> BatchView {
        BatchView {
            epoch: self.epoch,
            contributions: self.contributions@.map_values(
                |c: (NodeId, Contribution)| (c.0, c.1@),
            ),
        }
    }
}

/// All transactions of the contributions, one contribution after the other.
pub open spec fn all_transactions(contributions: Seq<(NodeId, ContributionView)>) -> Seq<Seq<u8>>
    decreases contributions.len(),
{
    if contributions.len() == 0 {
        Seq::empty()
    } else {
        all_transactions(contributions.drop_last()) + contributions.last().1.transactions
    }
}

/// The timestamps of the contributions.
pub open spec fn all_timestamps(contributions: Seq<(NodeId, ContributionView)>) -> Seq<u64> {
    contributions.map_values(|c: (NodeId, ContributionView)| c.1.timestamp)
}

/// How many timestamps lie before `time`.
pub open spec fn count_before(timestamps: Seq<u64>, time: int) -> nat
    decreases timestamps.len(),
{
    if timestamps.len() == 0 {
        0
    } else {
        count_before(timestamps.drop_last(), time) + if timestamps.last() < time {
            1nat
        } else {
            0
        }
    }
}

/// The timestamp in the middle: at most half of the timestamps lie before it, and more than half
/// are not after it.
pub open spec fn is_median(timestamps: Seq<u64>, median: u64) -> bool {
    &&& timestamps.contains(median)
    &&& count_before(timestamps, median as int) <= timestamps.len() / 2
    &&& timestamps.len() / 2 < count_before(timestamps, median + 1)
}

/// The items of a sequence, each where it occurs for the first time.
pub open spec fn first_occurrences(items: Seq<Seq<u8>>) -> Seq<Seq<u8>>
    decreases items.len(),
{
    if items.len() == 0 {
        Seq::empty()
    } else if items.drop_last().contains(items.last()) {
        first_occurrences(items.drop_last())
    } else {
        first_occurrences(items.drop_last()).push(items.last())
    }
}

/// The items that are there, without those that are missing.
pub open spec fn present<T>(items: Seq<Option<T>>) -> Seq<T>
    decreases items.len(),
{
    if items.len() == 0 {
        Seq::empty()
    } else {
        match items.last() {
            Some(item) => present(items.drop_last()).push(item),
            None => present(items.drop_last()),
        }
    }
}

/// Calls `itertools::Itertools::unique`: of equal items the first one stays, and the order is
/// kept.
#[verifier::external_body]
fn unique(items: Vec<Vec<u8>>) -> (distinct: Vec<Vec<u8>>)
    ensures
        byte_strings(distinct@) == first_occurrences(byte_strings(items@)),
{
    items.into_iter().unique().collect()
}

/// Calls `itertools::Itertools::sorted`: the same items in ascending order.
#[verifier::external_body]
fn sorted(items: Vec<u64>) -> (ascending: Vec<u64>)
    ensures
        ascending@.to_multiset() == items@.to_multiset(),
        forall|i: int, j: int| 0 <= i <= j < ascending@.len() ==> ascending@[i] <= ascending@[j],
{
    items.into_iter().sorted()
}

/// Keeps the items that are there.
pub fn keep_present<T>(items: Vec<Option<T>>) -> (kept: Vec<T>)
    ensures
        kept@ == present(items@),
{
    let mut kept: Vec<T> = Vec::new();
    assert(items@.take(0) =~= Seq::<Option<T>>::empty());
    for item in iter: items
        invariant
            iter.seq() == items@,
            kept@ == present(items@.take(iter.index())),
    {
        proof {
            let i = iter.index();
            assert(items@.take(i + 1).drop_last() =~= items@.take(i));
            assert(items@.take(i + 1).last() == item);
        }
        match item {
            Some(value) => kept.push(value),
            None => {},
        }
    }
    assert(items@.take(items@.len() as int) =~= items@);
    kept
}

/// Copies a byte string.
fn copy_bytes(bytes: &Vec<u8>) -> (copy: Vec<u8>)
    ensures
        copy@ == bytes@,
{
    let mut copy: Vec<u8> = Vec::new();
    let mut i: usize = 0;
    while i < bytes.len()
        invariant
            i <= bytes.len(),
            copy@ == bytes@.take(i as int),
        decreases bytes.len() - i,
    {
        copy.push(bytes[i]);
        i = i + 1;
        assert(copy@ =~= bytes@.take(i as int));
    }
    assert(copy@ =~= bytes@);
    copy
}

impl Batch {
    /// Only the first of several batches is worked on.
    pub fn first(output: Vec<Batch>) -> (batch: Option<Batch>)
        ensures
            batch == (if output@.len() == 0 {
                None
            } else {
                Some(output@[0])
            }),
    {
        let mut rest: Vec<Batch> = output;
        if rest.len() == 0 {
            None
        } else {
            Some(rest.swap_remove(0))
        }
    }

    /// The serialised transactions of all contributions, one contribution after the other.
    pub fn serialized_transactions(&self) -> (transactions: Vec<Vec<u8>>)
        ensures
            byte_strings(transactions@) == all_transactions(self@.contributions),
    {
        let ghost all = self@.contributions;
        let mut transactions: Vec<Vec<u8>> = Vec::new();
        let mut i: usize = 0;
        assert(all.take(0) =~= Seq::<(NodeId, ContributionView)>::empty());
        assert(byte_strings(transactions@) =~= Seq::<Seq<u8>>::empty());
        while i < self.contributions.len()
            invariant
                i <= self.contributions@.len(),
                all == self@.contributions,
                byte_strings(transactions@) == all_transactions(all.take(i as int)),
            decreases self.contributions.len() - i,
        {
            let own: &Vec<Vec<u8>> = &self.contributions[i].1.transactions;
            let ghost before = byte_strings(transactions@);
            let mut j: usize = 0;
            assert(byte_strings(own@.take(0)) =~= Seq::<Seq<u8>>::empty());
            while j < own.len()
                invariant
                    j <= own@.len(),
                    byte_strings(transactions@) == before + byte_strings(own@.take(j as int)),
                decreases own.len() - j,
            {
                let copy = copy_bytes(&own[j]);
                let ghost previous = transactions@;
                transactions.push(copy);
                j = j + 1;
                assert(byte_strings(transactions@) =~= byte_strings(previous).push(copy@));
                assert(byte_strings(own@.take(j as int)) =~= byte_strings(
                    own@.take(j - 1),
                ).push(own@[j - 1]@));
                assert(byte_strings(transactions@) =~= before + byte_strings(own@.take(j as int)));
            }
            assert(own@.take(j as int) =~= own@);
            i = i + 1;
            assert(all.take(i as int).drop_last() =~= all.take(i - 1));
            assert(all.take(i as int).last().1.transactions == byte_strings(own@));
        }
        assert(all.take(i as int) =~= all);
        transactions
    }

    /// The median of the timestamps of all contributions.
    pub fn timestamp(&self) -> (median: u64)
        requires
            self.contributions@.len() > 0,
        ensures
            is_median(all_timestamps(self@.contributions), median),
    {
        let ghost all = all_timestamps(self@.contributions);
        let mut timestamps: Vec<u64> = Vec::new();
        let mut i: usize = 0;
        while i < self.contributions.len()
            invariant
                i <= self.contributions@.len(),
                all == all_timestamps(self@.contributions),
                timestamps@ == all.take(i as int),
            decreases self.contributions.len() - i,
        {
            timestamps.push(self.contributions[i].1.timestamp);
            i = i + 1;
            assert(timestamps@ =~= all.take(i as int));
        }
        assert(timestamps@ =~= all);
        let ascending = sorted(timestamps);
        proof {
            broadcast use vstd::seq_lib::group_to_multiset_ensures;
            assert(ascending@.to_multiset().len() == ascending@.len());
            assert(all.to_multiset().len() == all.len());
            lemma_middle_is_median(ascending@, all);
        }
        ascending[ascending.len() / 2]
    }
}

/// Drops the transactions that could not be decoded, and of equal ones all but the first.
pub fn unique_transactions(decoded: Vec<Option<Vec<u8>>>) -> (transactions: Vec<Vec<u8>>)
    ensures
        byte_strings(transactions@) == first_occurrences(byte_strings(present(decoded@))),
{
    unique(keep_present(decoded))
}

/// Moving the bound up counts no fewer timestamps.
proof fn lemma_count_before_monotonic(timestamps: Seq<u64>, low: int, high: int)
    requires
        low <= high,
    ensures
        count_before(timestamps, low) <= count_before(timestamps, high),
    decreases timestamps.len(),
{
    if timestamps.len() > 0 {
        lemma_count_before_monotonic(timestamps.drop_last(), low, high);
    }
}

/// There are no more timestamps before a time than there are timestamps.
proof fn lemma_count_before_bound(timestamps: Seq<u64>, time: int)
    ensures
        count_before(timestamps, time) <= timestamps.len(),
    decreases timestamps.len(),
{
    if timestamps.len() > 0 {
        lemma_count_before_bound(timestamps.drop_last(), time);
    }
}

/// Taking a timestamp out lowers the count if it lies before the time.
proof fn lemma_count_before_remove(timestamps: Seq<u64>, index: int, time: int)
    requires
        0 <= index < timestamps.len(),
    ensures
        count_before(timestamps, time) == count_before(timestamps.remove(index), time) + if timestamps[index]
            < time {
            1nat
        } else {
            0
        },
    decreases timestamps.len(),
{
    if index == timestamps.len() - 1 {
        assert(timestamps.remove(index) =~= timestamps.drop_last());
    } else {
        lemma_count_before_remove(timestamps.drop_last(), index, time);
        assert(timestamps.remove(index).drop_last() =~= timestamps.drop_last().remove(index));
        assert(timestamps.remove(index).last() == timestamps.last());
    }
}

/// The order of the timestamps does not matter for the count.
proof fn lemma_count_before_reordered(a: Seq<u64>, b: Seq<u64>, time: int)
    requires
        a.to_multiset() == b.to_multiset(),
    ensures
        count_before(a, time) == count_before(b, time),
    decreases a.len(),
{
    broadcast use vstd::seq_lib::group_to_multiset_ensures;

    assert(a.to_multiset().len() == a.len());
    assert(b.to_multiset().len() == b.len());
    if a.len() > 0 {
        let last = a.last();
        assert(a.to_multiset().count(last) > 0) by {
            assert(a.contains(last));
        }
        assert(b.contains(last));
        let index = choose|i: int| 0 <= i < b.len() && b[i] == last;
        lemma_count_before_remove(b, index, time);
        assert(a.remove(a.len() - 1) =~= a.drop_last());
        assert(a.drop_last().to_multiset() =~= b.remove(index).to_multiset());
        lemma_count_before_reordered(a.drop_last(), b.remove(index), time);
    }
}

/// If no timestamp from `index` on lies before the time, then at most `index` do.
proof fn lemma_count_before_at_most(timestamps: Seq<u64>, index: int, time: int)
    requires
        0 <= index <= timestamps.len(),
        forall|i: int| index <= i < timestamps.len() ==> timestamps[i] >= time,
    ensures
        count_before(timestamps, time) <= index,
    decreases timestamps.len(),
{
    if index == timestamps.len() {
        lemma_count_before_bound(timestamps, time);
    } else {
        lemma_count_before_at_most(timestamps.drop_last(), index, time);
    }
}

/// If the first `number` timestamps lie before the time, then at least that many do.
proof fn lemma_count_before_at_least(timestamps: Seq<u64>, number: int, time: int)
    requires
        0 <= number <= timestamps.len(),
        forall|i: int| 0 <= i < number ==> timestamps[i] < time,
    ensures
        count_before(timestamps, time) >= number,
    decreases timestamps.len(),
{
    if timestamps.len() > 0 {
        if number == timestamps.len() {
            lemma_count_before_at_least(timestamps.drop_last(), number - 1, time);
        } else {
            lemma_count_before_at_least(timestamps.drop_last(), number, time);
        }
    }
}

/// In the ascending order of the timestamps the median stands in the middle.
proof fn lemma_middle_is_median(ascending: Seq<u64>, timestamps: Seq<u64>)
    requires
        ascending.to_multiset() == timestamps.to_multiset(),
        ascending.len() == timestamps.len(),
        ascending.len() > 0,
        forall|i: int, j: int| 0 <= i <= j < ascending.len() ==> ascending[i] <= ascending[j],
    ensures
        is_median(timestamps, ascending[ascending.len() as int / 2]),
{
    broadcast use vstd::seq_lib::group_to_multiset_ensures;

    let middle = ascending.len() as int / 2;
    let median = ascending[middle];
    lemma_count_before_at_most(ascending, middle, median as int);
    lemma_count_before_at_least(ascending, middle + 1, median + 1);
    lemma_count_before_reordered(ascending, timestamps, median as int);
    lemma_count_before_reordered(ascending, timestamps, median + 1);
    assert(ascending.contains(median));
    assert(ascending.to_multiset().count(median) > 0);
    assert(timestamps.contains(median));
}

/// There is only one median.
pub proof fn law_median_unique(timestamps: Seq<u64>, a: u64, b: u64)
    requires
        is_median(timestamps, a),
        is_median(timestamps, b),
    ensures
        a == b,
{
    if a < b {
        lemma_count_before_monotonic(timestamps, a + 1, b as int);
    }
    if b < a {
        lemma_count_before_monotonic(timestamps, b + 1, a as int);
    }
}

/// A minority cannot move the time of a block: if more than half of the timestamps lie between
/// two times, the median lies between them too.
pub proof fn law_median_within_majority(timestamps: Seq<u64>, median: u64, low: u64, high: u64)
    requires
        is_median(timestamps, median),
        count_before(timestamps, high + 1) - count_before(timestamps, low as int)
            > timestamps.len() / 2,
    ensures
        low <= median <= high,
{
    lemma_count_before_bound(timestamps, high + 1);
    if median < low {
        lemma_count_before_monotonic(timestamps, median + 1, low as int);
    }
    if median > high {
        lemma_count_before_monotonic(timestamps, high + 1, median as int);
    }
}

/// Every transaction goes into the block at most once, and every one that was decoded goes in.
pub proof fn law_transactions_unique(items: Seq<Seq<u8>>)
    ensures
        first_occurrences(items).no_duplicates(),
        forall|item: Seq<u8>| #[trigger]
            first_occurrences(items).contains(item) <==> items.contains(item),
    decreases items.len(),
{
    if items.len() > 0 {
        let rest = items.drop_last();
        let kept = first_occurrences(rest);
        law_transactions_unique(rest);
        assert(items =~= rest.push(items.last()));
        assert(first_occurrences(items).no_duplicates()) by {
            if !rest.contains(items.last()) {
                assert(!kept.contains(items.last()));
                assert forall|i: int| 0 <= i < kept.len() implies kept[i] != items.last() by {
                    assert(kept.contains(kept[i]));
                }
            }
        }
        assert forall|item: Seq<u8>| #[trigger]
            first_occurrences(items).contains(item) implies items.contains(item) by {
            if kept.contains(item) {
                let i = choose|i: int| 0 <= i < rest.len() && rest[i] == item;
                assert(items[i] == item);
            } else {
                assert(items[items.len() - 1] == item);
            }
        }
        assert forall|item: Seq<u8>| items.contains(item) implies #[trigger] first_occurrences(
            items,
        ).contains(item) by {
            let i = choose|i: int| 0 <= i < items.len() && items[i] == item;
            if i < rest.len() {
                assert(rest[i] == item);
                assert(kept.contains(item));
                let k = choose|k: int| 0 <= k < kept.len() && kept[k] == item;
                assert(first_occurrences(items)[k] == item);
            } else if rest.contains(items.last()) {
                assert(kept.contains(item));
            } else {
                assert(first_occurrences(items)[kept.len() as int] == item);
            }
        }
    }
}

/// No transaction that was agreed on is lost, none is made up, and their order is kept: those of one
/// contribution after another are the transactions of the one, and then those of the other.
pub proof fn law_transactions_joined(
    first: Seq<(NodeId, ContributionView)>,
    second: Seq<(NodeId, ContributionView)>,
    single: (NodeId, ContributionView),
)
    ensures
        all_transactions(Seq::empty()) == Seq::<Seq<u8>>::empty(),
        all_transactions(seq![single]) == single.1.transactions,
        all_transactions(first + second) == all_transactions(first) + all_transactions(second),
    decreases second.len(),
{
    reveal_with_fuel(all_transactions, 2);
    assert(seq![single].drop_last() =~= Seq::<(NodeId, ContributionView)>::empty());
    assert(all_transactions(seq![single]) =~= single.1.transactions);
    if second.len() == 0 {
        assert(first + second =~= first);
        assert(all_transactions(first + second) =~= all_transactions(first) + all_transactions(
            second,
        ));
    } else {
        let rest = second.drop_last();
        law_transactions_joined(first, rest, single);
        assert((first + second).drop_last() =~= first + rest);
        assert((first + second).last() == second.last());
        assert(all_transactions(first + second) =~= all_transactions(first) + all_transactions(
            second,
        ));
    }
}

/// A transaction is among those that were agreed on exactly if some contribution holds it.
pub proof fn law_transactions_contributed(
    contributions: Seq<(NodeId, ContributionView)>,
    transaction: Seq<u8>,
)
    ensures
        all_transactions(contributions).contains(transaction) <==> exists|i: int|
            0 <= i < contributions.len() && (#[trigger] contributions[i]).1.transactions.contains(
                transaction,
            ),
    decreases contributions.len(),
{
    if contributions.len() > 0 {
        let rest = contributions.drop_last();
        let last = contributions.last().1.transactions;
        law_transactions_contributed(rest, transaction);
        let all = all_transactions(contributions);
        let before = all_transactions(rest);
        assert(all =~= before + last);
        if all.contains(transaction) {
            let k = choose|k: int| 0 <= k < all.len() && all[k] == transaction;
            if k < before.len() {
                assert(before[k] == transaction);
                let i = choose|i: int|
                    0 <= i < rest.len() && (#[trigger] rest[i]).1.transactions.contains(transaction);
                assert(contributions[i].1.transactions.contains(transaction));
            } else {
                assert(last[k - before.len()] == transaction);
                assert(contributions[contributions.len() - 1].1.transactions.contains(transaction));
            }
        }
        if exists|i: int|
            0 <= i < contributions.len() && (#[trigger] contributions[i]).1.transactions.contains(
                transaction,
            ) {
            let i = choose|i: int|
                0 <= i < contributions.len() && (
                #[trigger] contributions[i]).1.transactions.contains(transaction);
            if i < rest.len() {
                assert(rest[i].1.transactions.contains(transaction));
                let k = choose|k: int| 0 <= k < before.len() && before[k] == transaction;
                assert(all[k] == transaction);
            } else {
                let k = choose|k: int| 0 <= k < last.len() && last[k] == transaction;
                assert(all[before.len() + k] == transaction);
            }
        }
    }
}

/// The transactions of a batch are those of its contributions, one after the other, byte by byte.
pub proof fn law_transactions_of_batch(batch: Batch, transactions: Vec<Vec<u8>>)
    requires
        call_ensures(Batch::serialized_transactions, (&batch,), transactions),
    ensures
        byte_strings(transactions@) == all_transactions(batch@.contributions),
        batch@.contributions.len() == batch.contributions@.len(),
        forall|i: int|
            0 <= i < batch.contributions@.len() ==> {
                let view = (#[trigger] batch@.contributions[i]).1.transactions;
                let own = batch.contributions@[i].1.transactions@;
                view.len() == own.len() && forall|j: int|
                    0 <= j < own.len() ==> (#[trigger] view[j]) == own[j]@
            },
        forall|transaction: Seq<u8>| #[trigger]
            byte_strings(transactions@).contains(transaction) <==> exists|i: int|
                0 <= i < batch@.contributions.len() && (
                #[trigger] batch@.contributions[i]).1.transactions.contains(transaction),
{
    assert forall|transaction: Seq<u8>| #[trigger]
        byte_strings(transactions@).contains(transaction) <==> exists|i: int|
            0 <= i < batch@.contributions.len() && (
            #[trigger] batch@.contributions[i]).1.transactions.contains(transaction) by {
        law_transactions_contributed(batch@.contributions, transaction);
    }
}

/// The mathematical value of a batch has its epoch, and its contributions by the same nodes.
pub proof fn law_batch_view(batch: Batch)
    ensures
        batch@.epoch == batch.epoch,
        batch@.contributions.len() == batch.contributions@.len(),
        forall|i: int|
            0 <= i < batch.contributions@.len() ==> (#[trigger] batch@.contributions[i]) == (
                batch.contributions@[i].0,
                batch.contributions@[i].1@,
            ),
{
}

/// Only the first of several batches is worked on.
pub proof fn law_first_batch(output: Vec<Batch>, batch: Option<Batch>)
    requires
        call_ensures(Batch::first, (output,), batch),
    ensures
        batch is None <==> output@.len() == 0,
        batch matches Some(first) ==> first == output@[0],
{
}

/// The median stands in the middle of the timestamps in ascending order.
pub proof fn law_median_in_the_middle(timestamps: Seq<u64>, ascending: Seq<u64>, median: u64)
    requires
        is_median(timestamps, median),
        ascending.to_multiset() == timestamps.to_multiset(),
        forall|i: int, j: int| 0 <= i <= j < ascending.len() ==> ascending[i] <= ascending[j],
    ensures
        ascending.len() == timestamps.len(),
        median == ascending[timestamps.len() as int / 2],
{
    broadcast use vstd::seq_lib::group_to_multiset_ensures;

    assert(ascending.to_multiset().len() == ascending.len());
    assert(timestamps.to_multiset().len() == timestamps.len());
    lemma_middle_is_median(ascending, timestamps);
    law_median_unique(timestamps, median, ascending[timestamps.len() as int / 2]);
}

/// The time of a batch is one of those of its contributions: the one in the middle, when they are
/// put in ascending order.
pub proof fn law_time_of_batch(batch: Batch, ascending: Seq<u64>, median: u64)
    requires
        batch.contributions@.len() > 0,
        call_ensures(Batch::timestamp, (&batch,), median),
        ascending.to_multiset() == Seq::new(
            batch.contributions@.len(),
            |i: int| batch.contributions@[i].1.timestamp,
        ).to_multiset(),
        forall|i: int, j: int| 0 <= i <= j < ascending.len() ==> ascending[i] <= ascending[j],
    ensures
        median == ascending[batch.contributions@.len() as int / 2],
        exists|i: int|
            0 <= i < batch.contributions@.len() && (
            #[trigger] batch.contributions@[i]).1.timestamp == median,
{
    let times = Seq::new(
        batch.contributions@.len(),
        |i: int| batch.contributions@[i].1.timestamp,
    );
    assert(all_timestamps(batch@.contributions) =~= times);
    law_median_in_the_middle(times, ascending, median);
    let i = choose|i: int| 0 <= i < times.len() && times[i] == median;
    assert(batch.contributions@[i].1.timestamp == median);
}

/// What is there is kept in its order, and what is missing is left out.
pub proof fn law_present_joined<T>(first: Seq<Option<T>>, second: Seq<Option<T>>, item: T)
    ensures
        present(Seq::<Option<T>>::empty()) == Seq::<T>::empty(),
        present(seq![Some(item)]) == seq![item],
        present(seq![None::<T>]) == Seq::<T>::empty(),
        present(first + second) == present(first) + present(second),
    decreases second.len(),
{
    reveal_with_fuel(present, 2);
    assert(seq![Some(item)].drop_last() =~= Seq::<Option<T>>::empty());
    assert(seq![None::<T>].drop_last() =~= Seq::<Option<T>>::empty());
    assert(present(seq![Some(item)]) =~= seq![item]);
    if second.len() == 0 {
        assert(first + second =~= first);
        assert(present(first + second) =~= present(first) + present(second));
    } else {
        law_present_joined(first, second.drop_last(), item);
        assert((first + second).drop_last() =~= first + second.drop_last());
        assert(present(first + second) =~= present(first) + present(second));
    }
}

/// Items that are there are kept as they are.
pub proof fn law_kept_items<T>(items: Vec<Option<T>>, kept: Vec<T>)
    requires
        call_ensures(keep_present::<T>, (items,), kept),
    ensures
        kept@ == present(items@),
{
}

/// Of equal items the first one stays where it is: what comes later does not change what was kept.
pub proof fn law_first_stays(items: Seq<Seq<u8>>, later: Seq<Seq<u8>>)
    ensures
        first_occurrences(items).is_prefix_of(first_occurrences(items + later)),
    decreases later.len(),
{
    if later.len() == 0 {
        assert(items + later =~= items);
    } else {
        let rest = later.drop_last();
        law_first_stays(items, rest);
        assert((items + later).drop_last() =~= items + rest);
        let before = first_occurrences(items + rest);
        let after = first_occurrences(items + later);
        assert(before.is_prefix_of(after));
        let kept = first_occurrences(items);
        assert(kept =~= after.subrange(0, kept.len() as int));
    }
}

/// A block holds every transaction that could be decoded, once, and no other.
pub proof fn law_unique_transactions(decoded: Vec<Option<Vec<u8>>>, transactions: Vec<Vec<u8>>)
    requires
        call_ensures(unique_transactions, (decoded,), transactions),
    ensures
        byte_strings(transactions@).no_duplicates(),
        byte_strings(transactions@) == first_occurrences(byte_strings(present(decoded@))),
        forall|item: Seq<u8>| #[trigger]
            byte_strings(transactions@).contains(item) <==> byte_strings(
                present(decoded@),
            ).contains(item),
{
    law_transactions_unique(byte_strings(present(decoded@)));
}

} // verus!
