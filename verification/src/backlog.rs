use vstd::prelude::*;

use crate::models::GotifyMessage;

verus! {

/// Whether a message identifier lies beyond the already-forwarded
/// cursor. An absent cursor admits everything: on a first run the
/// whole history is forwarded.
pub open spec fn admitted(id: i64, cursor: Option<i64>) -> bool {
    match cursor {
        None => true,
        Some(c) => id > c,
    }
}

/// The subsequence of `s` whose identifiers lie beyond the cursor,
/// in the order of `s`.
pub open spec fn filter_admitted(s: Seq<GotifyMessage>, cursor: Option<i64>) -> Seq<
    GotifyMessage,
> {
    s.filter(|m: GotifyMessage| admitted(m.id, cursor))
}

/// Identifiers of `s`, newest first: strictly decreasing.
pub open spec fn ids_strictly_decreasing(s: Seq<GotifyMessage>) -> bool {
    forall|i: int, j: int| 0 <= i < j < s.len() ==> s[i].id > s[j].id
}

/// Identifiers of `s`, oldest first: strictly increasing.
pub open spec fn ids_strictly_increasing(s: Seq<GotifyMessage>) -> bool {
    forall|i: int, j: int| 0 <= i < j < s.len() ==> s[i].id < s[j].id
}

/// The backlog produced from the pages the source returned, oldest
/// first: the concatenated pages, filtered by the cursor, reversed.
pub open spec fn backlog_spec(pages: Seq<Seq<GotifyMessage>>, cursor: Option<i64>) -> Seq<
    GotifyMessage,
> {
    filter_admitted(pages.flatten(), cursor).reverse()
}

/// Whether another page should be requested: the source reports more
/// pages and the page boundary `since` has not receded below the
/// cursor. An absent cursor never stops paging early.
pub open spec fn keep_paging(next: bool, since: i64, cursor: Option<i64>) -> bool {
    next && match cursor {
        None => true,
        Some(c) => since >= c,
    }
}

/// Accumulates the catch-up backlog page by page, filtering every page
/// against the already-forwarded cursor and deciding after each page
/// whether to request another.
pub struct BacklogBuilder {
    pub cursor: Option<i64>,
    pub collected: Vec<GotifyMessage>,
    pub done: bool,
}

impl BacklogBuilder {
    pub fn new(cursor: Option<i64>) -> (r: BacklogBuilder)
        ensures
            r.cursor == cursor,
            r.collected@ == Seq::<GotifyMessage>::empty(),
            !r.done,
    {
        BacklogBuilder { cursor, collected: Vec::new(), done: false }
    }

    /// Takes one page as the source returned it (newest first) together
    /// with its paging trailer, keeps exactly the messages beyond the
    /// cursor, and returns the boundary to request the next page with,
    /// or `None` when paging is complete.
    pub fn absorb_page(&mut self, messages: Vec<GotifyMessage>, next: bool, since: i64) -> (more:
        Option<i64>)
        requires
            !old(self).done,
        ensures
            final(self).cursor == old(self).cursor,
            final(self).collected@ == old(self).collected@ + filter_admitted(
                messages@,
                old(self).cursor,
            ),
            more == (if keep_paging(next, since, old(self).cursor) {
                Option::Some(since)
            } else {
                Option::<i64>::None
            }),
            final(self).done == !keep_paging(next, since, old(self).cursor),
    {
        let ghost orig = messages@;
        let mut messages = messages;
        let ghost start = self.collected@;
        let ghost mut i: int = 0;
        proof {
            reveal(Seq::filter);
        }
        while messages.len() > 0
            invariant
                self.cursor == old(self).cursor,
                self.done == old(self).done,
                0 <= i,
                orig == orig.take(i) + messages@,
                i + messages@.len() == orig.len(),
                self.collected@ == start + filter_admitted(orig.take(i), self.cursor),
            decreases messages@.len(),
        {
            let m = messages.remove(0);
            proof {
                reveal(Seq::filter);
                assert(orig.take(i + 1).drop_last() =~= orig.take(i));
                assert(orig.take(i + 1).last() == m);
                assert(orig =~= orig.take(i + 1) + messages@);
                i = i + 1;
            }
            let keep = match self.cursor {
                Option::None => true,
                Option::Some(c) => m.id > c,
            };
            if keep {
                self.collected.push(m);
            }
        }
        proof {
            assert(orig.take(i) =~= orig);
        }
        let more = match self.cursor {
            Option::None => next,
            Option::Some(c) => next && since >= c,
        };
        if more {
            Option::Some(since)
        } else {
            self.done = true;
            Option::None
        }
    }

    /// Hands the accumulated backlog out oldest first: the collected
    /// messages in reverse order.
    pub fn finish(self) -> (r: Vec<GotifyMessage>)
        ensures
            r@ == self.collected@.reverse(),
    {
        let ghost orig = self.collected@;
        let mut collected = self.collected;
        let mut r: Vec<GotifyMessage> = Vec::new();
        proof {
            assert(orig.take(orig.len() as int) =~= orig);
        }
        while collected.len() > 0
            invariant
                collected@.len() <= orig.len(),
                orig.take(collected@.len() as int) == collected@,
                r@ == orig.skip(collected@.len() as int).reverse(),
            decreases collected@.len(),
        {
            let ghost k = collected@.len() as int;
            let m = match collected.pop() {
                Option::Some(m) => m,
                Option::None => {
                    proof {
                        assert(false);
                    }
                    unreached()
                },
            };
            proof {
                assert(orig.take(k).subrange(0, k - 1) =~= orig.take(k - 1));
                assert(orig.take(k - 1) =~= collected@);
                assert(orig.skip(k - 1) =~= seq![m] + orig.skip(k));
                lemma_reverse_head(m, orig.skip(k));
            }
            r.push(m);
        }
        proof {
            assert(orig.skip(0) =~= orig);
        }
        r
    }
}

/// Reversing a sequence with `m` in front puts `m` at the back.
proof fn lemma_reverse_head(m: GotifyMessage, s: Seq<GotifyMessage>)
    ensures
        (seq![m] + s).reverse() =~= s.reverse().push(m),
{
}

/// A sequence and its reverse hold the same messages.
proof fn lemma_reverse_contains(s: Seq<GotifyMessage>)
    ensures
        forall|m: GotifyMessage| #[trigger] s.reverse().contains(m) <==> s.contains(m),
{
    assert forall|m: GotifyMessage| #[trigger] s.reverse().contains(m) implies s.contains(m) by {
        let i = choose|i: int| 0 <= i < s.reverse().len() && s.reverse()[i] == m;
        assert(s[s.len() - 1 - i] == m);
    }
    assert forall|m: GotifyMessage| s.contains(m) implies #[trigger] s.reverse().contains(m) by {
        let i = choose|i: int| 0 <= i < s.len() && s[i] == m;
        assert(s.reverse()[s.len() - 1 - i] == m);
    }
}

/// Reversing a newest-first sequence yields an oldest-first one.
proof fn lemma_reverse_flips_order(s: Seq<GotifyMessage>)
    requires
        ids_strictly_decreasing(s),
    ensures
        ids_strictly_increasing(s.reverse()),
{
    assert forall|i: int, j: int|
        0 <= i < j < s.reverse().len() implies s.reverse()[i].id < s.reverse()[j].id by {
        assert(s.reverse()[i] == s[s.len() - 1 - i]);
        assert(s.reverse()[j] == s[s.len() - 1 - j]);
    }
}

/// The cursor filter keeps the newest-first order of what it is given.
proof fn lemma_filter_admitted_decreasing(s: Seq<GotifyMessage>, cursor: Option<i64>)
    requires
        ids_strictly_decreasing(s),
    ensures
        ids_strictly_decreasing(filter_admitted(s, cursor)),
    decreases s.len(),
{
    reveal(Seq::filter);
    let pred = |m: GotifyMessage| admitted(m.id, cursor);
    if s.len() == 0 {
    } else {
        assert forall|i: int, j: int|
            0 <= i < j < s.drop_last().len() implies s.drop_last()[i].id > s.drop_last()[j].id by {
            assert(s.drop_last()[i] == s[i]);
            assert(s.drop_last()[j] == s[j]);
        }
        lemma_filter_admitted_decreasing(s.drop_last(), cursor);
        let rest = filter_admitted(s.drop_last(), cursor);
        if pred(s.last()) {
            assert forall|i: int| 0 <= i < rest.len() implies rest[i].id > s.last().id by {
                assert(rest.contains(rest[i]));
                s.drop_last().lemma_filter_contains_rev(pred, rest[i]);
                let j = choose|j: int|
                    0 <= j < s.drop_last().len() && s.drop_last()[j] == rest[i];
                assert(s[j] == rest[i]);
                assert(s[j].id > s[s.len() - 1].id);
            }
            assert forall|i: int, j: int|
                0 <= i < j < rest.push(s.last()).len() implies rest.push(s.last())[i].id
                    > rest.push(s.last())[j].id by {
                if j < rest.len() {
                    assert(rest.push(s.last())[i] == rest[i]);
                    assert(rest.push(s.last())[j] == rest[j]);
                } else {
                    assert(rest.push(s.last())[i] == rest[i]);
                    assert(rest.push(s.last())[j] == s.last());
                }
            }
            assert(filter_admitted(s, cursor) == rest.push(s.last()));
        } else {
            assert(filter_admitted(s, cursor) == rest);
        }
    }
}

/// The backlog holds exactly the upstream messages whose identifiers
/// lie beyond the cursor: nothing already forwarded reappears, and
/// nothing new is lost, whatever pages the source returned.
pub proof fn lemma_backlog_members(pages: Seq<Seq<GotifyMessage>>, cursor: Option<i64>)
    ensures
        forall|m: GotifyMessage| #[trigger] backlog_spec(pages, cursor).contains(m) <==> (
        pages.flatten().contains(m) && admitted(m.id, cursor)),
{
    let s = pages.flatten();
    let pred = |m: GotifyMessage| admitted(m.id, cursor);
    let f = filter_admitted(s, cursor);
    lemma_reverse_contains(f);
    assert forall|m: GotifyMessage| f.contains(m) implies s.contains(m) && admitted(m.id, cursor) by {
        s.lemma_filter_contains_rev(pred, m);
    }
    assert forall|m: GotifyMessage| s.contains(m) && admitted(m.id, cursor) implies f.contains(
        m,
    ) by {
        let i = choose|i: int| 0 <= i < s.len() && s[i] == m;
        s.lemma_filter_contains(pred, i);
    }
}

/// With a well-behaved source, whose concatenated pages arrive newest
/// first, the backlog is strictly increasing in identifier.
pub proof fn lemma_backlog_increasing(pages: Seq<Seq<GotifyMessage>>, cursor: Option<i64>)
    requires
        ids_strictly_decreasing(pages.flatten()),
    ensures
        ids_strictly_increasing(backlog_spec(pages, cursor)),
{
    lemma_filter_admitted_decreasing(pages.flatten(), cursor);
    lemma_reverse_flips_order(filter_admitted(pages.flatten(), cursor));
}

/// Catch-up is idempotent: two runs over an unchanged upstream history
/// produce the same backlog.
pub proof fn lemma_backlog_idempotent(
    first: Seq<Seq<GotifyMessage>>,
    second: Seq<Seq<GotifyMessage>>,
    cursor: Option<i64>,
)
    requires
        first == second,
    ensures
        backlog_spec(first, cursor) == backlog_spec(second, cursor),
{
}

/// Filtering pages one at a time, as the builder does, collects the
/// same messages as filtering the concatenation of all pages at once.
pub proof fn lemma_filter_admitted_distributes(
    a: Seq<GotifyMessage>,
    b: Seq<GotifyMessage>,
    cursor: Option<i64>,
)
    ensures
        filter_admitted(a + b, cursor) == filter_admitted(a, cursor) + filter_admitted(b, cursor),
{
    Seq::filter_distributes_over_add(a, b, |m: GotifyMessage| admitted(m.id, cursor));
}

/// Crash recovery gives at-least-once delivery and no replay behind the
/// cursor: a message still upstream reappears in the next backlog
/// exactly while the persisted cursor has not reached its identifier,
/// and once the cursor holds its identifier, every backlog entry is
/// strictly newer.
pub proof fn lemma_crash_recovery(
    pages: Seq<Seq<GotifyMessage>>,
    n: GotifyMessage,
    cursor: Option<i64>,
)
    ensures
        pages.flatten().contains(n) && admitted(n.id, cursor) ==> backlog_spec(
            pages,
            cursor,
        ).contains(n),
        forall|m: GotifyMessage|
            backlog_spec(pages, Some(n.id)).contains(m) ==> m.id > n.id,
{
    lemma_backlog_members(pages, cursor);
    lemma_backlog_members(pages, Some(n.id));
}

} // verus!
