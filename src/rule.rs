//! Watch rules and their evaluation against a price.

use vstd::prelude::*;
use crate::price::Price;

verus! {

/// Which side of the threshold a rule watches.
#[derive(Clone, Copy, Debug, PartialEq, Eq)]
pub enum Direction {
    /// Fires when the price is at or above the threshold.
    SellWhenAtOrAbove,
    /// Fires when the price is at or below the threshold.
    BuyWhenAtOrBelow,
}

/// The direction that a stored type code names: `"0"` sells, `"1"` buys.
pub open spec fn direction_of_code(code: Seq<char>) -> Option<Direction> {
    if code == seq!['0'] {
        Some(Direction::SellWhenAtOrAbove)
    } else if code == seq!['1'] {
        Some(Direction::BuyWhenAtOrBelow)
    } else {
        None
    }
}

impl Direction {
    /// Reads a stored type code; any code but `"0"` and `"1"` names no direction.
    pub fn from_code(code: &str) -> (r: Option<Direction>)
        ensures
            r == direction_of_code(code@),
    {
        if code.unicode_len() != 1 {
            return None;
        }
        let c = code.get_char(0);
        if c == '0' {
            assert(code@ =~= seq!['0']);
            Some(Direction::SellWhenAtOrAbove)
        } else if c == '1' {
            assert(code@ =~= seq!['1']);
            Some(Direction::BuyWhenAtOrBelow)
        } else {
            None
        }
    }
}

/// One operator-configured alert condition.
#[derive(Clone, Debug)]
pub struct WatchRule {
    pub id: i64,
    pub code: String,
    pub threshold: Price,
    pub direction: Direction,
    /// `true` once the rule has fired or was disabled.
    pub closed: bool,
}

impl WatchRule {
    /// The rule's condition holds at `price`; the boundary itself fires.
    pub open spec fn fires_at(&self, price: Price) -> bool {
        match self.direction {
            Direction::SellWhenAtOrAbove => price@ >= self.threshold@,
            Direction::BuyWhenAtOrBelow => price@ <= self.threshold@,
        }
    }

    /// The rule is active and its condition holds at `price`.
    pub open spec fn is_due(&self, price: Price) -> bool {
        !self.closed && self.fires_at(price)
    }

    /// Whether the rule's condition holds at `price`, compared exactly.
    pub fn triggers(&self, price: &Price) -> (r: bool)
        ensures
            r == self.fires_at(*price),
            self.direction == Direction::SellWhenAtOrAbove ==> (r <==> price@ >= self.threshold@),
            self.direction == Direction::BuyWhenAtOrBelow ==> (r <==> price@ <= self.threshold@),
    {
        match self.direction {
            Direction::SellWhenAtOrAbove => self.threshold.at_most(price),
            Direction::BuyWhenAtOrBelow => price.at_most(&self.threshold),
        }
    }
}

/// The index of the first rule at or after `from` that is due at `price`, or
/// the number of rules where there is none.
pub open spec fn next_due(rules: Seq<WatchRule>, price: Price, from: int) -> int
    decreases rules.len() - from,
{
    if from >= rules.len() {
        rules.len() as int
    } else if rules[from].is_due(price) {
        from
    } else {
        next_due(rules, price, from + 1)
    }
}

/// The rule picked next is due, no due rule is passed over on the way to it,
/// and where none is picked no rule from `from` on is due.
pub proof fn lemma_next_due(rules: Seq<WatchRule>, price: Price, from: int)
    requires
        0 <= from <= rules.len(),
    ensures
        from <= next_due(rules, price, from) <= rules.len(),
        next_due(rules, price, from) < rules.len() ==> rules[next_due(rules, price, from)].is_due(
            price,
        ),
        forall|k: int| from <= k < next_due(rules, price, from) ==> !(#[trigger] rules[k]).is_due(price),
    decreases rules.len() - from,
{
    if from < rules.len() && !rules[from].is_due(price) {
        lemma_next_due(rules, price, from + 1);
    }
}

/// A closed rule is never picked for notification, whatever the price and
/// wherever the pass starts: once a rule is closed after a delivered alert,
/// later passes send nothing more for it.
pub proof fn lemma_closed_rule_never_picked(rules: Seq<WatchRule>, price: Price, i: int, from: int)
    requires
        0 <= i < rules.len(),
        rules[i].closed,
        0 <= from <= rules.len(),
    ensures
        next_due(rules, price, from) != i,
{
    lemma_next_due(rules, price, from);
}

/// The index of the first rule at or after `from` that is active and fires at
/// `price`, or the number of rules where there is none.
pub fn find_due(rules: &Vec<WatchRule>, price: &Price, from: usize) -> (r: usize)
    requires
        from <= rules.len(),
    ensures
        r == next_due(rules@, *price, from as int),
{
    let mut i: usize = from;
    while i < rules.len()
        invariant
            from <= i <= rules.len(),
            next_due(rules@, *price, from as int) == next_due(rules@, *price, i as int),
        decreases rules.len() - i,
    {
        if !rules[i].closed && rules[i].triggers(price) {
            return i;
        }
        i = i + 1;
    }
    i
}

} // verus!
