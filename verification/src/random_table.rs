//! A table of weighted choices: each entry is drawn with a chance proportional to its
//! weight.

use crate::dice::{Dice, Throw};
use vstd::prelude::*;

verus! {

/// An entry of a table and its weight.
#[derive(Debug)]
pub struct RandomEntry<T> {
    pub item: T,
    pub weight: i32,
}

/// The sum of the weights of `entries`.
pub open spec fn total_weight<T>(entries: Seq<RandomEntry<T>>) -> int
    decreases entries.len(),
{
    if entries.len() == 0 {
        0
    } else {
        entries[0].weight + total_weight(entries.drop_first())
    }
}

/// The entry that the roll `r` (counted from 0) lands on: the entries take up
/// consecutive stretches of the rolls, each as long as its weight, in their order.
pub open spec fn chosen<T>(entries: Seq<RandomEntry<T>>, r: int) -> Option<T>
    decreases entries.len(),
{
    if entries.len() == 0 {
        None
    } else if r < entries[0].weight {
        Some(entries[0].item)
    } else {
        chosen(entries.drop_first(), r - entries[0].weight)
    }
}

/// The sum of the weights of the entries before entry `i`.
pub open spec fn weight_before<T>(entries: Seq<RandomEntry<T>>, i: int) -> int {
    total_weight(entries.take(i))
}

/// Every weight is positive.
pub open spec fn all_positive<T>(entries: Seq<RandomEntry<T>>) -> bool {
    forall|k: int| 0 <= k < entries.len() ==> #[trigger] entries[k].weight > 0
}

/// Every entry of positive weights is drawn by exactly the rolls of its stretch: the
/// rolls from the sum of the weights before it, as many as its weight.
pub proof fn law_weights_honored<T>(entries: Seq<RandomEntry<T>>, i: int, r: int)
    requires
        all_positive(entries),
        0 <= i < entries.len(),
        weight_before(entries, i) <= r < weight_before(entries, i) + entries[i].weight,
    ensures
        chosen(entries, r) == Some(entries[i].item),
    decreases i,
{
    if i > 0 {
        let rest = entries.drop_first();
        assert(entries.take(i).drop_first() =~= rest.take(i - 1));
        assert(entries.take(i)[0] == entries[0]);
        assert forall|k: int| 0 <= k < rest.len() implies #[trigger] rest[k].weight > 0 by {
            assert(rest[k] == entries[k + 1]);
        }
        assert forall|k: int| 0 <= k < rest.take(i - 1).len() implies #[trigger] rest.take(i - 1)[k].weight > 0 by {
            assert(rest.take(i - 1)[k] == rest[k]);
        }
        lemma_total_nonnegative(rest.take(i - 1));
        assert(rest[i - 1] == entries[i]);
        law_weights_honored(rest, i - 1, r - entries[0].weight);
    } else {
        assert(entries.take(0).len() == 0);
    }
}

/// Every roll from 0 up to the total weight lands on an entry.
pub proof fn law_every_roll_lands<T>(entries: Seq<RandomEntry<T>>, r: int)
    requires
        all_positive(entries),
        0 <= r < total_weight(entries),
    ensures
        chosen(entries, r) is Some,
    decreases entries.len(),
{
    if entries.len() > 0 && r >= entries[0].weight {
        let rest = entries.drop_first();
        assert forall|k: int| 0 <= k < rest.len() implies #[trigger] rest[k].weight > 0 by {
            assert(rest[k] == entries[k + 1]);
        }
        law_every_roll_lands(rest, r - entries[0].weight);
    }
}

/// A roll lands only on an entry of the table.
pub proof fn law_roll_lands_on_entry<T>(entries: Seq<RandomEntry<T>>, r: int)
    requires
        chosen(entries, r) is Some,
    ensures
        exists|k: int| 0 <= k < entries.len() && chosen(entries, r) == Some(#[trigger] entries[k].item),
    decreases entries.len(),
{
    if r >= entries[0].weight {
        let rest = entries.drop_first();
        law_roll_lands_on_entry(rest, r - entries[0].weight);
        let k = choose|k: int| 0 <= k < rest.len() && chosen(rest, r - entries[0].weight) == Some(#[trigger] rest[k].item);
        assert(entries[k + 1] == rest[k]);
    } else {
        assert(chosen(entries, r) == Some(entries[0].item));
    }
}

/// A table of weighted choices. Entries of weight 0 or less are never added.
pub struct RandomTable<T> {
    entries: Vec<RandomEntry<T>>,
    total_weight: i32,
}

pub proof fn lemma_total_push<T>(entries: Seq<RandomEntry<T>>, e: RandomEntry<T>)
    ensures
        total_weight(entries.push(e)) == total_weight(entries) + e.weight,
    decreases entries.len(),
{
    if entries.len() > 0 {
        assert(entries.push(e).drop_first() =~= entries.drop_first().push(e));
        assert(entries.push(e)[0] == entries[0]);
        lemma_total_push(entries.drop_first(), e);
    } else {
        assert(entries.push(e).drop_first() =~= Seq::<RandomEntry<T>>::empty());
        assert(entries.push(e)[0] == e);
        assert(total_weight(Seq::<RandomEntry<T>>::empty()) == 0);
    }
}

pub proof fn lemma_total_nonnegative<T>(entries: Seq<RandomEntry<T>>)
    requires
        all_positive(entries),
    ensures
        total_weight(entries) >= 0,
        entries.len() > 0 ==> total_weight(entries) > 0,
    decreases entries.len(),
{
    if entries.len() > 0 {
        assert(entries[0].weight > 0);
        let rest = entries.drop_first();
        assert forall|k: int| 0 <= k < rest.len() implies #[trigger] rest[k].weight > 0 by {
            assert(rest[k] == entries[k + 1]);
        }
        lemma_total_nonnegative(rest);
    }
}

impl<T> RandomTable<T> {
    #[verifier::type_invariant]
    spec fn well_formed(&self) -> bool {
        &&& all_positive(self.entries@)
        &&& self.total_weight == total_weight(self.entries@)
        &&& self.total_weight < i32::MAX
    }

}

impl<T> View for RandomTable<T> {
    type V = Seq<RandomEntry<T>>;

    /// The entries of the table, in the order they were added.
    closed spec fn view(&self) -> Seq<RandomEntry<T>> {
        self.entries@
    }
}

impl<T: Copy> RandomTable<T> {
    /// An empty table.
    pub fn new() -> (table: Self)
        ensures
            table.view() == Seq::<RandomEntry<T>>::empty(),
    {
        RandomTable { entries: Vec::new(), total_weight: 0 }
    }

    /// The table with `item` added at the end, where `weight` is positive; the table
    /// unchanged where it is not. The total weight stays below `i32::MAX`, so that a die
    /// with as many sides can be rolled.
    pub fn add(self, item: T, weight: i32) -> (table: Self)
        requires
            total_weight(self.view()) + weight < i32::MAX,
        ensures
            table.view() == (if weight > 0 {
                self.view().push(RandomEntry { item, weight })
            } else {
                self.view()
            }),
    {
        proof {
            use_type_invariant(&self);
        }
        let mut table = self;
        if weight > 0 {
            let ghost before = table.entries@;
            let entry = RandomEntry { item, weight };
            proof {
                lemma_total_push(before, entry);
            }
            let mut entries = table.entries;
            entries.push(entry);
            assert(all_positive(entries@)) by {
                assert forall|k: int| 0 <= k < entries@.len() implies #[trigger] entries@[k].weight > 0 by {
                    if k < before.len() {
                        assert(entries@[k] == before[k]);
                    }
                }
            }
            RandomTable { entries, total_weight: table.total_weight + weight }
        } else {
            table
        }
    }

    /// The sum of the weights of the table.
    pub fn total(&self) -> (w: i32)
        ensures
            w == total_weight(self.view()),
            0 <= w < i32::MAX,
            all_positive(self.view()),
    {
        proof {
            use_type_invariant(self);
            lemma_total_nonnegative(self.entries@);
        }
        self.total_weight
    }

    /// The entry that the roll `r` lands on, for `r` from 0 up to the total weight.
    pub fn pick(&self, r: i32) -> (picked: T)
        requires
            0 <= r < total_weight(self.view()),
        ensures
            chosen(self.view(), r as int) == Some(picked),
    {
        proof {
            use_type_invariant(self);
        }
        let ghost all = self.entries@;
        let mut rest = r;
        let mut i: usize = 0;
        let n = self.entries.len();
        assert(all.skip(0) =~= all);
        while i < n
            invariant
                n == all.len(),
                all == self.entries@,
                all_positive(all),
                i <= n,
                0 <= rest < total_weight(all.skip(i as int)),
                chosen(all, r as int) == chosen(all.skip(i as int), rest as int),
            decreases n - i,
        {
            let entry = &self.entries[i];
            assert(all.skip(i as int)[0] == *entry);
            assert(all.skip(i as int).drop_first() =~= all.skip(i + 1));
            if rest < entry.weight {
                return entry.item;
            }
            rest = rest - entry.weight;
            i = i + 1;
        }
        assert(all.skip(n as int).len() == 0);
        assert(false);
        self.entries[0].item
    }

    /// Rolls the table: `None` where it is empty, and no die thrown; else one die with as
    /// many sides as the total weight is thrown, and its roll, counted from 0, picks the
    /// entry.
    pub fn roll(&self, dice: &mut Dice) -> (picked: Option<T>)
        ensures
            (picked is None) <==> self.view().len() == 0,
            self.view().len() == 0 ==> final(dice).thrown() == old(dice).thrown(),
            self.view().len() > 0 ==> table_throw(self.view(), old(dice).thrown(), final(dice).thrown(), picked),
            picked matches Some(item) ==> exists|r: int|
                0 <= r < total_weight(self.view()) && chosen(self.view(), r) == Some(item),
    {
        let total = self.total();
        proof {
            use_type_invariant(self);
            lemma_total_nonnegative(self.entries@);
        }
        if total == 0 {
            return None;
        }
        let r = dice.roll(1, total) - 1;
        let picked = self.pick(r);
        proof {
            assert(dice.thrown().last() == (1i32, total, (r + 1) as i32));
        }
        Some(picked)
    }
}

/// One roll of a table of `entries`: the record `after` is `before` with one more throw
/// of one die with as many sides as the total weight, and `picked` is the entry that
/// this throw, counted from 0, lands on.
pub open spec fn table_throw<T>(
    entries: Seq<RandomEntry<T>>,
    before: Seq<Throw>,
    after: Seq<Throw>,
    picked: Option<T>,
) -> bool {
    &&& after.len() == before.len() + 1
    &&& after == before.push(after.last())
    &&& after.last().0 == 1
    &&& after.last().1 == total_weight(entries)
    &&& 1 <= after.last().2 <= total_weight(entries)
    &&& picked == chosen(entries, after.last().2 - 1)
}

} // verus!
