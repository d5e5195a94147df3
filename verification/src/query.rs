//! What the two read queries ask of the engine and make of its rows.

use crate::record::{MessageRow, MessageRowView, SearchResult, SearchResultView};
use vstd::prelude::*;
use vstd::string::*;

verus! {

/// Whether a row may appear in an answer: it is stored as forwarded and has
/// a text.
pub open spec fn is_eligible(row: MessageRowView) -> bool {
    row.is_forwarded && row.text is Some
}

/// The answer row made from an eligible row.
pub open spec fn result_of(row: MessageRowView) -> SearchResultView {
    SearchResultView { id: row.id, text: row.text->0 }
}

/// What the rows hold, in order.
pub open spec fn rows_view(rows: Seq<MessageRow>) -> Seq<MessageRowView> {
    rows.map_values(|r: MessageRow| r@)
}

/// What the answer rows hold, in order.
pub open spec fn results_view(results: Seq<SearchResult>) -> Seq<SearchResultView> {
    results.map_values(|r: SearchResult| r@)
}

/// The answer rows of the eligible rows among `rows`, in the order of `rows`.
pub open spec fn kept(rows: Seq<MessageRowView>) -> Seq<SearchResultView> {
    rows.filter(|r: MessageRowView| is_eligible(r)).map_values(|r: MessageRowView| result_of(r))
}

/// The first `limit` elements of `s`, or all of `s` where it has no more.
pub open spec fn capped<A>(s: Seq<A>, limit: nat) -> Seq<A> {
    if s.len() <= limit {
        s
    } else {
        s.take(limit as int)
    }
}

/// The answer made of `rows`: the eligible rows in order, `limit` at most.
pub open spec fn screened(rows: Seq<MessageRowView>, limit: nat) -> Seq<SearchResultView> {
    capped(kept(rows), limit)
}

/// Whether `answer` is what is made of some rows that the engine may return.
pub open spec fn is_screening(answer: Seq<SearchResultView>, limit: nat) -> bool {
    exists|rows: Seq<MessageRowView>| answer == #[trigger] screened(rows, limit)
}

/// `kept` of a sequence with one more row at its end.
proof fn lemma_kept_push(rows: Seq<MessageRowView>, row: MessageRowView)
    ensures
        kept(rows.push(row)) == if is_eligible(row) {
            kept(rows).push(result_of(row))
        } else {
            kept(rows)
        },
{
    let pred = |r: MessageRowView| is_eligible(r);
    let longer = rows.push(row);
    assert(longer.drop_last() =~= rows);
    reveal(Seq::filter);
    assert(longer.filter(pred) == if pred(row) {
        rows.filter(pred).push(row)
    } else {
        rows.filter(pred)
    });
}

/// Whether `answer` was made from one of `rows` that is stored as forwarded
/// and has a text.
pub open spec fn made_from_eligible(rows: Seq<MessageRowView>, answer: SearchResultView) -> bool {
    exists|i: int|
        0 <= i < rows.len() && is_eligible(#[trigger] rows[i]) && answer == result_of(rows[i])
}

/// Every row of an answer was made from a row that is stored as forwarded
/// and has a text, whatever rows the engine returned and whatever the limit.
pub proof fn lemma_answer_rows_are_eligible(rows: Seq<MessageRowView>, limit: nat)
    ensures
        screened(rows, limit).len() <= limit,
        forall|j: int|
            0 <= j < screened(rows, limit).len() ==> made_from_eligible(
                rows,
                #[trigger] screened(rows, limit)[j],
            ),
{
    let pred = |r: MessageRowView| is_eligible(r);
    let passed = rows.filter(pred);
    assert forall|j: int| 0 <= j < screened(rows, limit).len() implies made_from_eligible(
        rows,
        #[trigger] screened(rows, limit)[j],
    ) by {
        rows.lemma_filter_pred(pred, j);
        rows.lemma_filter_contains_rev(pred, passed[j]);
    }
}

/// A stored message that is not forwarded, or has no text, never shows in an
/// answer: where no two rows share an identifier, no row of the answer has
/// the identifier of such a row.
pub proof fn lemma_ineligible_rows_never_answered(rows: Seq<MessageRowView>, limit: nat, i: int)
    requires
        0 <= i < rows.len(),
        !is_eligible(rows[i]),
        forall|a: int, b: int| 0 <= a < b < rows.len() ==> rows[a].id != rows[b].id,
    ensures
        forall|j: int|
            0 <= j < screened(rows, limit).len() ==> (#[trigger] screened(rows, limit)[j]).id
                != rows[i].id,
{
    lemma_answer_rows_are_eligible(rows, limit);
    assert forall|j: int| 0 <= j < screened(rows, limit).len() implies (#[trigger] screened(
        rows,
        limit,
    )[j]).id != rows[i].id by {
        let k = choose|k: int|
            0 <= k < rows.len() && is_eligible(#[trigger] rows[k]) && screened(rows, limit)[j]
                == result_of(rows[k]);
        assert(k != i);
    }
}

/// Makes the answer of the rows that the engine returned: rows that are not
/// forwarded or have no text are dropped, and no more than `limit` are kept.
///
/// The engine is asked for eligible rows only, and for `limit` at most.
/// Whatever it returns is screened here once more, so that the answer never
/// rests on the text of the statement.
pub fn screen(rows: &Vec<MessageRow>, limit: u8) -> (out: Vec<SearchResult>)
    ensures
        results_view(out@) == screened(rows_view(rows@), limit as nat),
        out@.len() <= limit,
{
    let mut out: Vec<SearchResult> = Vec::new();
    let limit_len: usize = limit as usize;
    let ghost all = rows_view(rows@);
    let mut i: usize = 0;
    proof {
        reveal(Seq::filter);
    }
    while i < rows.len()
        invariant
            limit_len == limit,
            i <= rows@.len(),
            all == rows_view(rows@),
            results_view(out@) == screened(all.take(i as int), limit as nat),
        decreases rows@.len() - i,
    {
        let row = &rows[i];
        proof {
            assert(all.take(i + 1) =~= all.take(i as int).push(all[i as int]));
            lemma_kept_push(all.take(i as int), all[i as int]);
        }
        if row.is_forwarded && out.len() < limit_len {
            match &row.text {
                Some(text) => {
                    out.push(SearchResult { id: row.id, text: text.clone() });
                },
                None => {},
            }
        }
        i = i + 1;
    }
    assert(all.take(rows@.len() as int) =~= all);
    out
}

/// The pattern that matches every text.
pub open spec fn any_text() -> Seq<char> {
    seq!['%']
}

/// The pattern that matches the texts in which `reg` occurs: `reg` between
/// two wildcards. Wildcards inside `reg` keep their meaning.
pub open spec fn containing(reg: Seq<char>) -> Seq<char> {
    seq!['%'] + reg + seq!['%']
}

/// Builds the pattern that matches every text.
pub fn any_text_pattern() -> (p: String)
    ensures
        p@ == any_text(),
{
    proof {
        reveal_strlit("%");
    }
    String::from_str("%")
}

/// Builds the pattern that matches the texts in which `reg` occurs.
pub fn like_pattern(reg: &str) -> (p: String)
    ensures
        p@ == containing(reg@),
{
    proof {
        reveal_strlit("%");
    }
    let mut p = String::from_str("%");
    p.append(reg);
    p.append("%");
    p
}

} // verus!
