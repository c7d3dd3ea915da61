//! The text that a ladder is reported in: one line for each level, with its
//! side, its price and the quantity of its order.
//!
//! Prices and quantities are written in whole tokens of eighteen decimals.

use crate::engine::token_unit;
use crate::price_list::{LevelModel, OrderModel, PriceList, PriceNode, TradeDestination};
use crate::uint::{limbs_value, U256};
use vstd::prelude::*;
use vstd::string::StringExecFns;

verus! {

/// The character of a decimal digit.
pub open spec fn digit_char(d: nat) -> char
    recommends
        d < 10,
{
    if d == 0 {
        '0'
    } else if d == 1 {
        '1'
    } else if d == 2 {
        '2'
    } else if d == 3 {
        '3'
    } else if d == 4 {
        '4'
    } else if d == 5 {
        '5'
    } else if d == 6 {
        '6'
    } else if d == 7 {
        '7'
    } else if d == 8 {
        '8'
    } else {
        '9'
    }
}

/// A number in decimal digits, without leading zeros.
pub open spec fn decimal_text(n: nat) -> Seq<char>
    decreases n,
{
    if n < 10 {
        seq![digit_char(n)]
    } else {
        decimal_text(n / 10).push(digit_char(n % 10))
    }
}

/// A number in decimal digits, with zeros in front up to `width` digits.
pub open spec fn padded_decimal_text(n: nat, width: nat) -> Seq<char> {
    let digits = decimal_text(n);
    if digits.len() >= width {
        digits
    } else {
        Seq::new((width - digits.len()) as nat, |i: int| '0') + digits
    }
}

/// An amount of the smallest units in whole tokens: the whole part, a
/// period, and eighteen decimals.
pub open spec fn ether_text(amount: nat) -> Seq<char> {
    decimal_text(amount / token_unit()) + seq!['.'] + padded_decimal_text(
        amount % token_unit(),
        18,
    )
}

/// A text between double quotes.
pub open spec fn quoted(text: Seq<char>) -> Seq<char> {
    seq!['"'] + text + seq!['"']
}

/// The name of a side.
pub open spec fn side_text(destination: TradeDestination) -> Seq<char> {
    match destination {
        TradeDestination::SELL => "SELL"@,
        TradeDestination::BUY => "BUY"@,
    }
}

/// The line that heads a report.
pub open spec fn title_text() -> Seq<char> {
    "=========================【ORDER STATUS】========================="@
}

/// The line that reports one level.
pub open spec fn level_text(level: LevelModel) -> Seq<char> {
    match level.order {
        None => "------------------------[Direction]:🍵,[Price]:"@ + quoted(ether_text(level.price))
            + ",[Order Quantity]:NO ORDER------------------------"@,
        Some(order) => "------------------------[Direction]:"@ + side_text(order.destination)
            + ",Price:"@ + quoted(ether_text(level.price)) + ",[Order Quantity]:"@
            + quantity_text(order) + "------------------------"@,
    }
}

/// The mark of a level's side: the name of its order's side, or a cup of
/// tea where it has no order.
pub open spec fn side_mark(order: Option<OrderModel>) -> Seq<char> {
    match order {
        None => "🍵"@,
        Some(order) => side_text(order.destination),
    }
}

/// The line that shows one level without the quantity of its order.
pub open spec fn level_summary_text(level: LevelModel) -> Seq<char> {
    "------------------------[Direction]:"@ + side_mark(level.order) + ",Price:"@ + quoted(
        ether_text(level.price),
    ) + "------------------------"@
}

/// The quantity of an order as a report shows it.
pub open spec fn quantity_text(order: OrderModel) -> Seq<char> {
    match order.mount {
        Some(mount) => quoted(ether_text(mount)),
        None => "NO ORDER"@,
    }
}

/// The number that four limbs spell, least significant first, in whole
/// tokens of eighteen decimals.
///
/// Calls `alloy::primitives::utils::format_ether` and trusts it to write the
/// number divided by 10^18 in decimal digits, a period, and the remainder
/// in eighteen digits with zeros in front.
#[verifier::external_body]
fn format_ether_limbs(limbs: [u64; 4]) -> (r: String)
    ensures
        r@ == ether_text(limbs_value(limbs[0], limbs[1], limbs[2], limbs[3])),
{
    alloy::primitives::utils::format_ether(alloy::primitives::U256::from_limbs(limbs))
}

/// An amount of the smallest units in whole tokens of eighteen decimals.
pub fn format_ether(amount: &U256) -> (r: String)
    ensures
        r@ == ether_text(amount@),
{
    format_ether_limbs(amount.into_limbs())
}

/// An amount in whole tokens, between double quotes.
fn quoted_ether(amount: &U256) -> (r: String)
    ensures
        r@ == quoted(ether_text(amount@)),
{
    let mut text = String::from_str("\"");
    let ether = format_ether(amount);
    text.append(ether.as_str());
    text.append("\"");
    proof {
        reveal_strlit("\"");
        assert(text@ =~= quoted(ether_text(amount@)));
    }
    text
}

/// The line that reports one level.
pub fn level_line(node: &PriceNode) -> (r: String)
    ensures
        r@ == level_text(node@),
{
    let price = quoted_ether(&node.this_price);
    match node.order_task {
        None => {
            let mut line = String::from_str("------------------------[Direction]:🍵,[Price]:");
            line.append(price.as_str());
            line.append(",[Order Quantity]:NO ORDER------------------------");
            line
        },
        Some(order) => {
            let mut line = String::from_str("------------------------[Direction]:");
            match order.destination {
                TradeDestination::SELL => line.append("SELL"),
                TradeDestination::BUY => line.append("BUY"),
            }
            line.append(",Price:");
            line.append(price.as_str());
            line.append(",[Order Quantity]:");
            match order.mount {
                Some(mount) => {
                    let quantity = quoted_ether(&mount);
                    line.append(quantity.as_str());
                },
                None => line.append("NO ORDER"),
            }
            line.append("------------------------");
            line
        },
    }
}

/// The line that shows one level without the quantity of its order.
pub fn level_summary_line(node: &PriceNode) -> (r: String)
    ensures
        r@ == level_summary_text(node@),
{
    let price = quoted_ether(&node.this_price);
    let mut line = String::from_str("------------------------[Direction]:");
    match node.order_task {
        None => line.append("🍵"),
        Some(order) => match order.destination {
            TradeDestination::SELL => line.append("SELL"),
            TradeDestination::BUY => line.append("BUY"),
        },
    }
    line.append(",Price:");
    line.append(price.as_str());
    line.append("------------------------");
    line
}

/// A ladder at a glance: one line for each level from the first to the
/// last, without quantities.
pub fn ladder_lines(queue: &PriceList) -> (lines: Vec<String>)
    requires
        queue.wf(),
    ensures
        lines@.len() == queue@.len(),
        forall|i: int|
            0 <= i < queue@.len() ==> (#[trigger] lines@[i])@ == level_summary_text(queue@[i]),
{
    let mut lines: Vec<String> = Vec::new();
    let nodes = queue.iter();
    let n = nodes.len();
    let mut i: usize = 0;
    while i < n
        invariant
            i <= n,
            n == nodes@.len(),
            n == queue@.len(),
            forall|j: int| 0 <= j < n ==> (#[trigger] nodes@[j])@ == queue@[j],
            lines@.len() == i,
            forall|j: int| 0 <= j < i ==> (#[trigger] lines@[j])@ == level_summary_text(queue@[j]),
        decreases n - i,
    {
        let line = level_summary_line(&nodes[i]);
        lines.push(line);
        i += 1;
    }
    lines
}

/// The report of a ladder: the title, then one line for each level from the
/// first to the last.
pub fn order_status_lines(queue: &PriceList) -> (lines: Vec<String>)
    requires
        queue.wf(),
    ensures
        lines@.len() == queue@.len() + 1,
        lines@[0]@ == title_text(),
        forall|i: int| 0 <= i < queue@.len() ==> (#[trigger] lines@[i + 1])@ == level_text(queue@[i]),
{
    let mut lines: Vec<String> = Vec::new();
    lines.push(String::from_str("=========================【ORDER STATUS】========================="));
    let nodes = queue.iter();
    let n = nodes.len();
    let mut i: usize = 0;
    while i < n
        invariant
            i <= n,
            n == nodes@.len(),
            n == queue@.len(),
            forall|j: int| 0 <= j < n ==> (#[trigger] nodes@[j])@ == queue@[j],
            lines@.len() == i + 1,
            lines@[0]@ == title_text(),
            forall|j: int| 0 <= j < i ==> (#[trigger] lines@[j + 1])@ == level_text(queue@[j]),
        decreases n - i,
    {
        let line = level_line(&nodes[i]);
        lines.push(line);
        i += 1;
    }
    lines
}

} // verus!
