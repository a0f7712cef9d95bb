//! What the app's commands decide before and after they call the service.

use vstd::prelude::*;
use vstd::string::*;
use crate::model::LogItem;
use crate::text::{int_text, push_int};

verus! {

/// Error text when no token has been configured.
pub open spec fn no_token_text() -> Seq<char> {
    "No token configured"@
}

/// Refuses an empty token.
pub fn require_token(token: &str) -> (r: Result<(), String>)
    ensures
        r is Ok <==> token@.len() > 0,
        r matches Err(e) ==> e@ == no_token_text(),
{
    if token.is_empty() {
        Err(String::from_str("No token configured"))
    } else {
        Ok(())
    }
}

/// First page and page size of a CSV export: the first 1000 logs.
pub const EXPORT_PAGE: i32 = 0;
pub const EXPORT_PAGE_SIZE: i32 = 1000;

/// Seconds in a day.
pub const DAY_SECS: i64 = 86400;

/// The window of the last `days` days that ends at `now`.
pub fn daily_window(now: i64, days: i32) -> (r: (i64, i64))
    requires
        i64::MIN <= now - days * DAY_SECS <= i64::MAX,
    ensures
        r.0 == now - days * DAY_SECS,
        r.1 == now,
{
    let span: i64 = days as i64 * DAY_SECS;
    (now - span, now)
}

/// Number of tokens a log entry used.
pub open spec fn item_tokens(item: LogItem) -> int {
    item.prompt_tokens + item.completion_tokens
}

/// Whether the token total of every entry fits in an `i64`.
pub open spec fn tokens_fit(items: Seq<LogItem>) -> bool {
    forall|i: int| 0 <= i < items.len() ==> i64::MIN <= #[trigger] item_tokens(items[i]) <= i64::MAX
}

/// First line of the CSV export.
pub open spec fn csv_header() -> Seq<char> {
    "Time,Model,Tokens,Cost\n"@
}

/// CSV line of one log entry, its cost already rendered.
pub open spec fn csv_line(item: LogItem, cost: Seq<char>) -> Seq<char> {
    int_text(item.created_at as int) + ","@ + item.model_name@ + ","@ + int_text(item_tokens(item)) + ","@
        + cost + "\n"@
}

/// CSV lines of the entries, in order.
pub open spec fn csv_rows(items: Seq<LogItem>, costs: Seq<String>) -> Seq<char>
    decreases items.len(),
{
    if items.len() == 0 {
        Seq::empty()
    } else {
        csv_rows(items.drop_last(), costs.drop_last()) + csv_line(items.last(), costs.last()@)
    }
}

/// The CSV lines of the entries, one per entry, in order: line `i` is the
/// time, model, total tokens and cost of entry `i`.
pub open spec fn csv_lines(items: Seq<LogItem>, costs: Seq<String>) -> Seq<Seq<char>> {
    Seq::new(items.len(), |i: int| csv_line(items[i], costs[i]@))
}

/// Every entry of the export gets its own line, in order, whatever it holds:
/// the rows are exactly the lines of all entries, one after the other.
pub proof fn lemma_csv_one_line_per_entry(items: Seq<LogItem>, costs: Seq<String>)
    requires
        costs.len() == items.len(),
    ensures
        csv_rows(items, costs) == csv_lines(items, costs).flatten(),
    decreases items.len(),
{
    let lines = csv_lines(items, costs);
    lines.lemma_flatten_and_flatten_alt_are_equivalent();
    if items.len() > 0 {
        lemma_csv_one_line_per_entry(items.drop_last(), costs.drop_last());
        let shorter = csv_lines(items.drop_last(), costs.drop_last());
        assert(lines.drop_last() =~= shorter);
        shorter.lemma_flatten_and_flatten_alt_are_equivalent();
        assert(lines.last() == csv_line(items.last(), costs.last()@));
        assert(lines.flatten_alt() == lines.drop_last().flatten_alt() + lines.last());
    } else {
        assert(lines.flatten_alt() =~= Seq::<char>::empty());
    }
}

/// The CSV export: a header, then one line per log entry with its time, model,
/// total tokens and cost. `costs[i]` is the cost of `items[i]`, rendered
/// with six decimals.
pub fn export_csv(items: &Vec<LogItem>, costs: &Vec<String>) -> (r: String)
    requires
        costs.len() == items.len(),
        tokens_fit(items@),
    ensures
        r@ == csv_header() + csv_rows(items@, costs@),
        r@ == csv_header() + csv_lines(items@, costs@).flatten(),
        csv_lines(items@, costs@).len() == items.len(),
{
    let mut csv = String::from_str("Time,Model,Tokens,Cost\n");
    let n = items.len();
    for i in 0..n
        invariant
            n == items.len(),
            costs.len() == items.len(),
            tokens_fit(items@),
            csv@ == csv_header() + csv_rows(items@.take(i as int), costs@.take(i as int)),
    {
        let item = &items[i];
        assert(i64::MIN <= item_tokens(items@[i as int]) <= i64::MAX);
        let tokens: i64 = item.prompt_tokens + item.completion_tokens;
        push_int(&mut csv, item.created_at);
        csv.append(",");
        csv.append(item.model_name.as_str());
        csv.append(",");
        push_int(&mut csv, tokens);
        csv.append(",");
        csv.append(costs[i].as_str());
        csv.append("\n");
        proof {
            let it = items@.take(i + 1);
            let ct = costs@.take(i + 1);
            assert(it.drop_last() =~= items@.take(i as int));
            assert(ct.drop_last() =~= costs@.take(i as int));
            assert(it.last() == items@[i as int]);
            assert(ct.last() == costs@[i as int]);
            assert(csv@ =~= csv_header() + csv_rows(it, ct));
        }
    }
    assert(items@.take(n as int) =~= items@);
    assert(costs@.take(n as int) =~= costs@);
    proof {
        lemma_csv_one_line_per_entry(items@, costs@);
    }
    csv
}

} // verus!
