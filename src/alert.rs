//! The alert message sent when a rule fires.

use vstd::prelude::*;
use vstd::string::*;
use crate::rule::Direction;
use crate::feed::PriceSnapshot;

verus! {

/// A message for the notifier.
#[derive(Clone, Debug, PartialEq, Eq)]
pub struct AlertMessage {
    pub subject: String,
    pub body: String,
}

/// The subject of an alert for a rule of direction `d`.
pub open spec fn subject_text(d: Direction) -> Seq<char> {
    match d {
        Direction::SellWhenAtOrAbove => "卖出提醒"@,
        Direction::BuyWhenAtOrBelow => "买入提醒"@,
    }
}

/// The body of an alert: the instrument and its current price.
pub open spec fn body_text(code: Seq<char>, price_text: Seq<char>) -> Seq<char> {
    "黄金:"@ + code + "    当前价格"@ + price_text
}

/// The alert for a rule of direction `direction` that fired at `snapshot`.
pub fn render_alert(direction: Direction, snapshot: &PriceSnapshot) -> (r: AlertMessage)
    ensures
        r.subject@ == subject_text(direction),
        r.body@ == body_text(snapshot.code@, snapshot.price_text@),
{
    let subject = match direction {
        Direction::SellWhenAtOrAbove => String::from_str("卖出提醒"),
        Direction::BuyWhenAtOrBelow => String::from_str("买入提醒"),
    };
    let mut body = String::from_str("黄金:");
    body.append(snapshot.code.as_str());
    body.append("    当前价格");
    body.append(snapshot.price_text.as_str());
    AlertMessage { subject, body }
}

} // verus!
