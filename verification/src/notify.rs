//! Notification texts and outcomes: what the outbox drainer records for a
//! row after trying its channels, and the titles and lines of the fill
//! notifications.

use vstd::prelude::*;
use crate::text::{concat, int_to_string, to_uppercase, decimal_digits, uppercased};
use crate::decimal::{
    dec_div, dec_parse, dec_to_string, decimal_parsed, decimal_quotient, decimal_text,
};

verus! {

/// What one channel reported for a delivery.
pub struct DeliveryReceipt {
    pub ok: bool,
    pub detail: Option<String>,
}

/// What happens to an outbox row.
pub enum OutboxResolution {
    /// None of the row's channels is known: failed without sending.
    NoChannels,
    /// Every channel delivered.
    Sent,
    /// A channel failed: the first failing channel's detail, or
    /// `delivery failed` when it gave none.
    Failed(String),
}

pub open spec fn detail_or_default(r: DeliveryReceipt) -> Seq<char> {
    match r.detail {
        Some(d) => d@,
        None => "delivery failed"@,
    }
}

/// `i` is the first receipt that failed.
pub open spec fn first_failure(rs: Seq<DeliveryReceipt>, i: int) -> bool {
    &&& 0 <= i < rs.len()
    &&& !rs[i].ok
    &&& forall|j: int| 0 <= j < i ==> #[trigger] rs[j].ok
}

fn failure_text(r: &DeliveryReceipt) -> (res: String)
    ensures
        res@ == detail_or_default(*r),
{
    match &r.detail {
        Some(d) => d.clone(),
        None => "delivery failed".to_owned(),
    }
}

/// The outcome of a row with `channels` known channels and the receipts
/// the dispatcher returned for them.
pub fn resolve_outbox_row(channels: usize, receipts: &Vec<DeliveryReceipt>) -> (res: OutboxResolution)
    ensures
        channels == 0 ==> res is NoChannels,
        channels > 0 ==> match res {
            OutboxResolution::NoChannels => false,
            OutboxResolution::Sent => forall|i: int| 0 <= i < receipts@.len() ==> #[trigger] receipts@[i].ok,
            OutboxResolution::Failed(d) => exists|i: int| first_failure(receipts@, i) && d@ == detail_or_default(#[trigger] receipts@[i]),
        },
{
    if channels == 0 {
        return OutboxResolution::NoChannels;
    }
    let n = receipts.len();
    let mut i: usize = 0;
    while i < n
        invariant
            n == receipts@.len(),
            channels > 0,
            i <= n,
            forall|j: int| 0 <= j < i ==> #[trigger] receipts@[j].ok,
        decreases n - i,
    {
        if !receipts[i].ok {
            let d = failure_text(&receipts[i]);
            assert(first_failure(receipts@, i as int));
            return OutboxResolution::Failed(d);
        }
        i = i + 1;
    }
    OutboxResolution::Sent
}

impl OutboxResolution {
    /// Text recorded for a row without any known channel.
    pub fn no_channels_message() -> (res: &'static str)
        ensures
            res@ == "no valid channels in notify_outbox.channels JSON"@,
    {
        "no valid channels in notify_outbox.channels JSON"
    }
}

/// Which fills a notification reports.
#[derive(Clone, Copy, Debug, PartialEq, Eq, Structural)]
pub enum FillKind {
    /// Paper fills; the side is shown upper-cased.
    Dry,
    /// Exchange fills; the side is shown as the order intent gives it.
    Live,
}

pub open spec fn title_head(kind: FillKind, english: bool) -> Seq<char> {
    match (kind, english) {
        (FillKind::Dry, true) => "Dry fill — "@,
        (FillKind::Dry, false) => "Dry dolum — "@,
        (FillKind::Live, true) => "Live fill — "@,
        (FillKind::Live, false) => "Canlı dolum — "@,
    }
}

pub open spec fn title_unit(kind: FillKind, english: bool) -> Seq<char> {
    match (kind, english) {
        (FillKind::Dry, true) => " trades"@,
        (FillKind::Dry, false) => " işlem"@,
        (FillKind::Live, true) => " orders"@,
        (FillKind::Live, false) => " emir"@,
    }
}

/// Title of a fill notification: for a single fill its exchange, symbol
/// and side; otherwise the number of fills.
pub open spec fn spec_fill_title(
    kind: FillKind,
    english: bool,
    count: int,
    exchange: Seq<char>,
    symbol: Seq<char>,
    side: Seq<char>,
) -> Seq<char> {
    let shown_side = if kind == FillKind::Dry { uppercased(side) } else { side };
    if count == 1 {
        title_head(kind, english) + exchange + " "@ + symbol + " "@ + shown_side
    } else {
        title_head(kind, english) + decimal_digits(count) + title_unit(kind, english)
    }
}

fn head_text(kind: FillKind, english: bool) -> (res: &'static str)
    ensures
        res@ == title_head(kind, english),
{
    match (kind, english) {
        (FillKind::Dry, true) => "Dry fill — ",
        (FillKind::Dry, false) => "Dry dolum — ",
        (FillKind::Live, true) => "Live fill — ",
        (FillKind::Live, false) => "Canlı dolum — ",
    }
}

fn unit_text(kind: FillKind, english: bool) -> (res: &'static str)
    ensures
        res@ == title_unit(kind, english),
{
    match (kind, english) {
        (FillKind::Dry, true) => " trades",
        (FillKind::Dry, false) => " işlem",
        (FillKind::Live, true) => " orders",
        (FillKind::Live, false) => " emir",
    }
}

/// `exchange`, `symbol` and `side` are those of the first fill.
pub fn fill_title(kind: FillKind, english: bool, count: usize, exchange: &str, symbol: &str, side: &str) -> (res: String)
    requires
        count <= i64::MAX,
    ensures
        res@ == spec_fill_title(kind, english, count as int, exchange@, symbol@, side@),
{
    let head = head_text(kind, english).to_owned();
    if count == 1 {
        let shown = match kind {
            FillKind::Dry => to_uppercase(side),
            FillKind::Live => side.to_owned(),
        };
        let a = concat(head, exchange);
        let b = concat(a, " ");
        let c = concat(b, symbol);
        let d = concat(c, " ");
        concat(d, shown.as_str())
    } else {
        let n = int_to_string(count as i64);
        let a = concat(head, n.as_str());
        concat(a, unit_text(kind, english))
    }
}

/// One line of a paper-fill notification; the amounts come formatted.
pub open spec fn spec_paper_fill_line(
    english: bool,
    exchange: Seq<char>,
    segment: Seq<char>,
    symbol: Seq<char>,
    side: Seq<char>,
    qty: Seq<char>,
    price: Seq<char>,
    fee: Seq<char>,
    quote: Seq<char>,
) -> Seq<char> {
    "· "@ + exchange + " "@ + segment + " "@ + symbol + " | "@ + uppercased(side) + " qty "@ + qty
        + " @ "@ + price + (if english { " (fee "@ } else { " (ücret "@ }) + fee + ") | quote "@
        + quote
}

pub fn paper_fill_line(
    english: bool,
    exchange: &str,
    segment: &str,
    symbol: &str,
    side: &str,
    qty: &str,
    price: &str,
    fee: &str,
    quote: &str,
) -> (res: String)
    ensures
        res@ == spec_paper_fill_line(english, exchange@, segment@, symbol@, side@, qty@, price@, fee@, quote@),
{
    let up = to_uppercase(side);
    let mut s = concat("· ".to_owned(), exchange);
    s = concat(s, " ");
    s = concat(s, segment);
    s = concat(s, " ");
    s = concat(s, symbol);
    s = concat(s, " | ");
    s = concat(s, up.as_str());
    s = concat(s, " qty ");
    s = concat(s, qty);
    s = concat(s, " @ ");
    s = concat(s, price);
    s = concat(s, if english { " (fee " } else { " (ücret " });
    s = concat(s, fee);
    s = concat(s, ") | quote ");
    concat(s, quote)
}

/// One line of a live-fill notification: the order intent's side and
/// quantity, the venue's status, executed quantity and average price, all
/// as text.
pub open spec fn spec_live_order_line(
    english: bool,
    exchange: Seq<char>,
    segment: Seq<char>,
    symbol: Seq<char>,
    side: Seq<char>,
    qty: Seq<char>,
    status: Seq<char>,
    executed: Seq<char>,
    avg_price: Seq<char>,
    user: Seq<char>,
) -> Seq<char> {
    "· "@ + exchange + " "@ + segment + " "@ + symbol + " | intent "@ + side + " "@ + qty
        + " | venue "@ + status + " exQty "@ + executed + " ~px "@ + avg_price + (if english {
        " | user "@
    } else {
        " | kullanıcı "@
    }) + user
}

pub fn live_order_line(
    english: bool,
    exchange: &str,
    segment: &str,
    symbol: &str,
    side: &str,
    qty: &str,
    status: &str,
    executed: &str,
    avg_price: &str,
    user: &str,
) -> (res: String)
    ensures
        res@ == spec_live_order_line(english, exchange@, segment@, symbol@, side@, qty@, status@, executed@, avg_price@, user@),
{
    let mut s = concat("· ".to_owned(), exchange);
    s = concat(s, " ");
    s = concat(s, segment);
    s = concat(s, " ");
    s = concat(s, symbol);
    s = concat(s, " | intent ");
    s = concat(s, side);
    s = concat(s, " ");
    s = concat(s, qty);
    s = concat(s, " | venue ");
    s = concat(s, status);
    s = concat(s, " exQty ");
    s = concat(s, executed);
    s = concat(s, " ~px ");
    s = concat(s, avg_price);
    s = concat(s, if english { " | user " } else { " | kullanıcı " });
    concat(s, user)
}

/// The average fill price shown in a live order line: quote total over
/// executed quantity when both parse as decimals and the quantity is
/// positive, else `-`; `None` where the division overflows.
pub open spec fn spec_average_price(executed: Seq<char>, quote: Seq<char>) -> Option<Seq<char>> {
    match (decimal_parsed(executed), decimal_parsed(quote)) {
        (Some(q), Some(total)) => if q.mantissa > 0 {
            match decimal_quotient(total, q) {
                Some(a) => Some(decimal_text(a)),
                None => None,
            }
        } else {
            Some("-"@)
        },
        _ => Some("-"@),
    }
}

pub fn average_price(executed: &str, quote: &str) -> (res: Option<String>)
    ensures
        match res {
            Some(s) => spec_average_price(executed@, quote@) == Some(s@),
            None => spec_average_price(executed@, quote@) is None,
        },
{
    let q = dec_parse(executed);
    let total = dec_parse(quote);
    match (q, total) {
        (Some(q), Some(total)) => {
            if q.mantissa > 0 {
                match dec_div(total, q) {
                    Some(a) => Some(dec_to_string(a)),
                    None => None,
                }
            } else {
                Some("-".to_owned())
            }
        },
        _ => Some("-".to_owned()),
    }
}

} // verus!
