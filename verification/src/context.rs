//! Telling an agent which of the memories it is shown are its own.
//!
//! A search may find what other agents remember. Where it does, the results are
//! preceded by one more element, which counts them by source and warns the reader.

use vstd::prelude::*;
use vstd::string::StringExecFns;

use crate::decimal::{decimal, decimal_text};
use crate::json::{
    contents, contents_are_elementwise, number_of_u64, plain_with_room, Json, JsonObject,
    JsonView, MAX_DEPTH,
};
use crate::text::{glue3, join, join_texts, same, text_of, texts};

verus! {

// ---------------------------------------------------------------------------
// Counting by source
// ---------------------------------------------------------------------------

/// How many entries come from one source.
#[derive(Debug, PartialEq, Eq)]
pub struct Share {
    pub source: String,
    pub count: usize,
}

/// How many entries come from each source, in the order in which the sources appear.
pub type Tally = Seq<(Seq<char>, nat)>;

/// What a vector of shares says.
pub open spec fn tally_of(shares: Seq<Share>) -> Tally {
    shares.map_values(|s: Share| (s.source@, s.count as nat))
}

/// The source of an entry; one that names none is of unknown source.
pub open spec fn source_of(entry: JsonView) -> Seq<char> {
    match entry.text_field("source"@) {
        Some(t) => t,
        None => "unknown"@,
    }
}

/// The place of `source` in a tally, or its length where it has none.
pub open spec fn slot(tally: Tally, source: Seq<char>) -> int
    decreases tally.len(),
{
    if tally.len() == 0 {
        0
    } else if tally[0].0 == source {
        0
    } else {
        1 + slot(tally.drop_first(), source)
    }
}

/// The tally with one more entry of `source`.
pub open spec fn bumped(tally: Tally, source: Seq<char>) -> Tally {
    let i = slot(tally, source);
    if i < tally.len() {
        tally.update(i, (source, tally[i].1 + 1))
    } else {
        tally.push((source, 1))
    }
}

/// How many of the entries come from each source.
pub open spec fn tally(entries: Seq<JsonView>) -> Tally
    decreases entries.len(),
{
    if entries.len() == 0 {
        Seq::empty()
    } else {
        bumped(tally(entries.drop_last()), source_of(entries.last()))
    }
}

/// The entries of a tally, all sources together.
pub open spec fn total(tally: Tally) -> nat
    decreases tally.len(),
{
    if tally.len() == 0 {
        0
    } else {
        total(tally.drop_last()) + tally.last().1
    }
}

/// What of a tally is not from `mine`.
pub open spec fn foreign(tally: Tally, mine: Seq<char>) -> Tally
    decreases tally.len(),
{
    if tally.len() == 0 {
        Seq::empty()
    } else if tally.last().0 != mine {
        foreign(tally.drop_last(), mine).push(tally.last())
    } else {
        foreign(tally.drop_last(), mine)
    }
}

/// How many of the entries have the given source.
pub open spec fn occurrences(entries: Seq<JsonView>, source: Seq<char>) -> nat
    decreases entries.len(),
{
    if entries.len() == 0 {
        0
    } else {
        occurrences(entries.drop_last(), source) + if source_of(entries.last()) == source {
            1nat
        } else {
            0nat
        }
    }
}

proof fn slot_finds(tally: Tally, source: Seq<char>)
    ensures
        0 <= slot(tally, source) <= tally.len(),
        slot(tally, source) < tally.len() ==> tally[slot(tally, source)].0 == source,
        forall|j: int| 0 <= j < slot(tally, source) ==> (#[trigger] tally[j]).0 != source,
    decreases tally.len(),
{
    if tally.len() > 0 && tally[0].0 != source {
        let rest = tally.drop_first();
        slot_finds(rest, source);
        assert forall|j: int| 0 <= j < slot(tally, source) implies (#[trigger] tally[j]).0
            != source by {
            if j > 0 {
                assert(rest[j - 1].0 != source);
            }
        }
    }
}

proof fn slot_is(tally: Tally, source: Seq<char>, i: int)
    requires
        0 <= i <= tally.len(),
        i < tally.len() ==> tally[i].0 == source,
        forall|j: int| 0 <= j < i ==> (#[trigger] tally[j]).0 != source,
    ensures
        slot(tally, source) == i,
{
    slot_finds(tally, source);
    let k = slot(tally, source);
    if k < i {
        assert(tally[k].0 != source);
    }
    if i < k {
        assert(tally[i].0 != source);
    }
}

proof fn total_of_update(tally: Tally, i: int, entry: (Seq<char>, nat))
    requires
        0 <= i < tally.len(),
    ensures
        total(tally.update(i, entry)) == total(tally) - tally[i].1 + entry.1,
    decreases tally.len(),
{
    let new = tally.update(i, entry);
    if i == tally.len() - 1 {
        assert(new.drop_last() == tally.drop_last());
    } else {
        total_of_update(tally.drop_last(), i, entry);
        assert(new.drop_last() == tally.drop_last().update(i, entry));
    }
}

proof fn each_is_within_the_total(tally: Tally, i: int)
    requires
        0 <= i < tally.len(),
    ensures
        tally[i].1 <= total(tally),
    decreases tally.len(),
{
    if i < tally.len() - 1 {
        each_is_within_the_total(tally.drop_last(), i);
    }
}

proof fn foreign_is_within_the_total(tally: Tally, mine: Seq<char>)
    ensures
        total(foreign(tally, mine)) <= total(tally),
    decreases tally.len(),
{
    if tally.len() > 0 {
        foreign_is_within_the_total(tally.drop_last(), mine);
        if tally.last().0 != mine {
            let f = foreign(tally.drop_last(), mine);
            assert(f.push(tally.last()).drop_last() == f);
        }
    }
}

/// The shares of a tally add up to the number of entries.
pub proof fn every_entry_is_counted(entries: Seq<JsonView>)
    ensures
        total(tally(entries)) == entries.len(),
    decreases entries.len(),
{
    if entries.len() > 0 {
        let before = tally(entries.drop_last());
        let source = source_of(entries.last());
        every_entry_is_counted(entries.drop_last());
        slot_finds(before, source);
        let i = slot(before, source);
        if i < before.len() {
            total_of_update(before, i, (source, before[i].1 + 1));
        } else {
            assert(before.push((source, 1)).drop_last() == before);
        }
    }
}

/// A tally names each source once, and with it how many of the entries have it.
pub proof fn a_tally_counts_each_source(entries: Seq<JsonView>)
    ensures
        forall|i: int, j: int|
            0 <= i < j < tally(entries).len() ==> (#[trigger] tally(entries)[i]).0 != (
            #[trigger] tally(entries)[j]).0,
        forall|i: int|
            0 <= i < tally(entries).len() ==> (#[trigger] tally(entries)[i]).1 == occurrences(
                entries,
                tally(entries)[i].0,
            ) && tally(entries)[i].1 > 0,
        forall|source: Seq<char>|
            slot(tally(entries), source) == tally(entries).len() ==> #[trigger] occurrences(
                entries,
                source,
            ) == 0,
    decreases entries.len(),
{
    if entries.len() > 0 {
        let rest = entries.drop_last();
        let before = tally(rest);
        let source = source_of(entries.last());
        let after = tally(entries);
        a_tally_counts_each_source(rest);
        slot_finds(before, source);
        let at = slot(before, source);
        if at == before.len() {
            assert(occurrences(rest, source) == 0);
        }
        assert forall|other: Seq<char>|
            slot(after, other) == after.len() implies #[trigger] occurrences(entries, other)
            == 0 by {
            slot_finds(after, other);
            assert(after[at].0 == source);
            assert(source != other);
            assert forall|j: int| 0 <= j < before.len() implies (#[trigger] before[j]).0
                != other by {
                assert(after[j].0 != other);
            }
            slot_is(before, other, before.len() as int);
            assert(occurrences(rest, other) == 0);
        }
    }
}

/// Counts the entries by source.
pub fn count_by_source(entries: &Vec<Json>) -> (r: Vec<Share>)
    ensures
        tally_of(r@) == tally(contents(entries@)),
        total(tally_of(r@)) == entries@.len(),
{
    let ghost all = contents(entries@);
    let mut shares: Vec<Share> = Vec::new();
    let mut n: usize = 0;
    proof {
        contents_are_elementwise(entries@);
        assert(tally_of(shares@) =~= tally(all.take(0)));
    }
    while n < entries.len()
        invariant
            n <= entries@.len(),
            all == contents(entries@),
            all.len() == entries@.len(),
            forall|i: int| 0 <= i < entries@.len() ==> #[trigger] all[i] == entries@[i]@,
            tally_of(shares@) == tally(all.take(n as int)),
        decreases entries@.len() - n,
    {
        let source = match entries[n].text_at("source") {
            Some(t) => t,
            None => "unknown",
        };
        let ghost before = tally_of(shares@);
        proof {
            assert(source@ == source_of(all[n as int]));
            assert(all.take(n + 1).drop_last() == all.take(n as int));
            assert(all.take(n + 1).last() == all[n as int]);
            every_entry_is_counted(all.take(n as int));
        }
        let mut i: usize = 0;
        while i < shares.len() && !same(shares[i].source.as_str(), source)
            invariant
                i <= shares@.len(),
                before == tally_of(shares@),
                forall|j: int| 0 <= j < i ==> (#[trigger] before[j]).0 != source@,
            decreases shares@.len() - i,
        {
            proof {
                assert(before[i as int].0 == shares@[i as int].source@);
            }
            i += 1;
        }
        proof {
            if i < shares@.len() {
                assert(before[i as int].0 == shares@[i as int].source@);
            }
            slot_is(before, source@, i as int);
        }
        if i < shares.len() {
            proof {
                each_is_within_the_total(before, i as int);
                assert(before[i as int].1 == shares@[i as int].count);
            }
            let grown = Share { source: source.to_owned(), count: shares[i].count + 1 };
            shares.set(i, grown);
            proof {
                assert(tally_of(shares@) =~= before.update(
                    i as int,
                    (source@, before[i as int].1 + 1),
                ));
            }
        } else {
            shares.push(Share { source: source.to_owned(), count: 1 });
            proof {
                assert(tally_of(shares@) =~= before.push((source@, 1nat)));
            }
        }
        n += 1;
    }
    proof {
        assert(all.take(n as int) == all);
        every_entry_is_counted(all);
    }
    shares
}

// ---------------------------------------------------------------------------
// The warning
// ---------------------------------------------------------------------------

/// One share in words.
pub open spec fn share_text(share: (Seq<char>, nat)) -> Seq<char> {
    share.0 + ": "@ + decimal(share.1)
}

/// A tally in words.
pub open spec fn tally_text(tally: Tally) -> Seq<char> {
    join(tally.map_values(|s: (Seq<char>, nat)| share_text(s)), ", "@)
}

/// The warning for an agent whose own memories are those of `mine`.
pub open spec fn foreign_warning(tally: Tally, mine: Seq<char>) -> Seq<char> {
    let others = foreign(tally, mine);
    let count = total(others);
    decimal(count) + (if count == 1 {
        " entry from other agent(s) ("@
    } else {
        " entries from other agent(s) ("@
    }) + tally_text(others)
        + ") are included in these results. Do NOT treat them as your own memories. Check the 'source' field of each entry."@
}

/// The warning for an agent that has no memories of its own.
pub open spec fn stranger_warning(client: Seq<char>) -> Seq<char> {
    "Source filter is not available for client '"@ + client
        + "'. Results include memories from ALL agents. Check the 'source' field of each entry to identify which agent it came from."@
}

/// A tally as a JSON object.
pub open spec fn tally_object(tally: Tally) -> Map<Seq<char>, JsonView>
    decreases tally.len(),
{
    if tally.len() == 0 {
        Map::empty()
    } else {
        tally_object(tally.drop_last()).insert(
            tally.last().0,
            JsonView::Number(number_of_u64(tally.last().1 as u64)),
        )
    }
}

/// Whether the results of a search need the warning.
pub open spec fn needs_context(tally: Tally, mine: Option<Seq<char>>) -> bool {
    match mine {
        Some(m) => exists|i: int| 0 <= i < tally.len() && (#[trigger] tally[i]).0 != m,
        None => tally.len() > 0,
    }
}

/// The element that precedes the results.
pub open spec fn context_element(
    tally: Tally,
    mine: Option<Seq<char>>,
    client: Seq<char>,
) -> JsonView {
    JsonView::Object(
        map![
            "_context"@ => JsonView::Object(
                map![
                    "your_source"@ => JsonView::Text(match mine {
                        Some(m) => m,
                        None => "unknown"@,
                    }),
                    "results_breakdown"@ => JsonView::Object(tally_object(tally)),
                    "warning"@ => JsonView::Text(match mine {
                        Some(m) => foreign_warning(tally, m),
                        None => stranger_warning(client),
                    }),
                ],
            ),
        ],
    )
}

/// The results of a search as the agent gets them.
pub open spec fn with_context(
    results: JsonView,
    mine: Option<Seq<char>>,
    client: Seq<char>,
) -> JsonView {
    match results {
        JsonView::Array(entries) => if needs_context(tally(entries), mine) {
            JsonView::Array(seq![context_element(tally(entries), mine, client)] + entries)
        } else {
            results
        },
        _ => results,
    }
}

proof fn foreign_step(tally: Tally, n: int, mine: Seq<char>)
    requires
        0 <= n < tally.len(),
    ensures
        foreign(tally.take(n + 1), mine) == if tally[n].0 != mine {
            foreign(tally.take(n), mine).push(tally[n])
        } else {
            foreign(tally.take(n), mine)
        },
{
    assert(tally.take(n + 1).drop_last() == tally.take(n));
}

fn warn_of_foreign(shares: &Vec<Share>, mine: &str) -> (r: String)
    requires
        total(tally_of(shares@)) <= usize::MAX,
    ensures
        r@ == foreign_warning(tally_of(shares@), mine@),
{
    let ghost all = tally_of(shares@);
    let mut parts: Vec<String> = Vec::new();
    let mut count: usize = 0;
    let mut i: usize = 0;
    let ghost words = |s: (Seq<char>, nat)| share_text(s);
    proof {
        assert(texts(parts@) =~= foreign(all.take(0), mine@).map_values(words));
    }
    while i < shares.len()
        invariant
            i <= shares@.len(),
            all == tally_of(shares@),
            total(all) <= usize::MAX,
            words == (|s: (Seq<char>, nat)| share_text(s)),
            count == total(foreign(all.take(i as int), mine@)),
            texts(parts@) == foreign(all.take(i as int), mine@).map_values(words),
        decreases shares@.len() - i,
    {
        let ghost others = foreign(all.take(i as int), mine@);
        let ghost said = texts(parts@);
        proof {
            foreign_step(all, i as int, mine@);
            assert(all[i as int] == (shares@[i as int].source@, shares@[i as int].count as nat));
        }
        if !same(shares[i].source.as_str(), mine) {
            let part = glue3(
                shares[i].source.as_str(),
                ": ",
                decimal_text(shares[i].count as u64).as_str(),
            );
            proof {
                assert(others.push(all[i as int]).drop_last() == others);
                total_of_prefix(all, i + 1);
                foreign_is_within_the_total(all.take(i + 1), mine@);
            }
            count += shares[i].count;
            parts.push(part);
            proof {
                assert(texts(parts@) =~= said.push(part@));
                assert(others.push(all[i as int]).map_values(words) =~= said.push(
                    share_text(all[i as int]),
                ));
            }
        }
        i += 1;
    }
    proof {
        assert(all.take(i as int) == all);
    }
    let noun = if count == 1 {
        " entry from other agent(s) ("
    } else {
        " entries from other agent(s) ("
    };
    let list = join_texts(&parts, ", ");
    let mut out = glue3(decimal_text(count as u64).as_str(), noun, list.as_str());
    out.append(
        ") are included in these results. Do NOT treat them as your own memories. Check the 'source' field of each entry.",
    );
    out
}

proof fn total_of_prefix(tally: Tally, n: int)
    requires
        0 <= n <= tally.len(),
    ensures
        total(tally.take(n)) <= total(tally),
    decreases tally.len() - n,
{
    if n == tally.len() {
        assert(tally.take(n) == tally);
    } else {
        total_of_prefix(tally, n + 1);
        assert(tally.take(n + 1).drop_last() == tally.take(n));
    }
}

fn breakdown(shares: &Vec<Share>) -> (r: JsonObject)
    ensures
        r@ == tally_object(tally_of(shares@)),
        total(tally_of(shares@)) <= i64::MAX ==> JsonView::Object(r@).plain(1),
{
    let ghost all = tally_of(shares@);
    let mut out = JsonObject::new();
    let mut i: usize = 0;
    proof {
        assert(all.take(0) =~= Seq::empty());
    }
    while i < shares.len()
        invariant
            i <= shares@.len(),
            all == tally_of(shares@),
            out@ == tally_object(all.take(i as int)),
            total(all) <= i64::MAX ==> forall|k: Seq<char>|
                out@.contains_key(k) ==> (#[trigger] out@[k]).plain(0),
        decreases shares@.len() - i,
    {
        proof {
            assert(all.take(i + 1).drop_last() == all.take(i as int));
            assert(all[i as int] == (shares@[i as int].source@, shares@[i as int].count as nat));
            each_is_within_the_total(all, i as int);
        }
        out.put(shares[i].source.as_str(), Json::count(shares[i].count as u64));
        i += 1;
    }
    proof {
        assert(all.take(i as int) == all);
    }
    out
}

fn shows_foreign(shares: &Vec<Share>, mine: Option<&str>) -> (r: bool)
    ensures
        r == needs_context(tally_of(shares@), text_of(mine)),
{
    let ghost all = tally_of(shares@);
    match mine {
        Some(m) => {
            let mut i: usize = 0;
            while i < shares.len()
                invariant
                    i <= shares@.len(),
                    all == tally_of(shares@),
                    text_of(mine) == Some(m@),
                    forall|j: int| 0 <= j < i ==> (#[trigger] all[j]).0 == m@,
                decreases shares@.len() - i,
            {
                proof {
                    assert(all[i as int].0 == shares@[i as int].source@);
                }
                if !same(shares[i].source.as_str(), m) {
                    return true;
                }
                i += 1;
            }
            false
        },
        None => shares.len() > 0,
    }
}

fn context_of(shares: &Vec<Share>, mine: Option<&str>, client: &str) -> (r: Json)
    requires
        total(tally_of(shares@)) <= usize::MAX,
    ensures
        r@ == context_element(tally_of(shares@), text_of(mine), client@),
        total(tally_of(shares@)) <= i64::MAX ==> r@.plain(3),
{
    let mut inner = JsonObject::new();
    match mine {
        Some(m) => inner.put_text("your_source", m),
        None => inner.put_text("your_source", "unknown"),
    }
    inner.put("results_breakdown", Json::Object(breakdown(shares)));
    let warning = match mine {
        Some(m) => warn_of_foreign(shares, m),
        None => glue3(
            "Source filter is not available for client '",
            client,
            "'. Results include memories from ALL agents. Check the 'source' field of each entry to identify which agent it came from.",
        ),
    };
    inner.put_text("warning", warning.as_str());
    proof {
        reveal_with_fuel(JsonView::plain, 2);
        if total(tally_of(shares@)) <= i64::MAX {
            assert(JsonView::Object(inner@).plain(2));
        }
    }
    let mut outer = JsonObject::new();
    outer.put("_context", Json::Object(inner));
    Json::Object(outer)
}

/// Puts `first` before the elements of an array.
pub fn prepend(first: Json, items: Vec<Json>) -> (r: Json)
    ensures
        r@ == JsonView::Array(seq![first@] + contents(items@)),
{
    let mut all = items;
    let ghost before = items@;
    all.insert(0, first);
    proof {
        contents_are_elementwise(before);
        contents_are_elementwise(all@);
        assert(contents(all@) =~= seq![first@] + contents(before));
    }
    Json::Array(all)
}

/// The results of a search as an agent gets them: with the warning before them where
/// they hold what other agents remember.
pub fn add_context(results: Json, mine: Option<&str>, client: &str) -> (r: Json)
    ensures
        r@ == with_context(results@, text_of(mine), client@),
        results@.plain(MAX_DEPTH as nat) && (results@ matches JsonView::Array(entries)
            ==> entries.len() <= i64::MAX) ==> r@.plain(MAX_DEPTH as nat),
{
    match results {
        Json::Array(entries) => {
            let found: usize = entries.len();
            proof {
                contents_are_elementwise(entries@);
            }
            let shares = count_by_source(&entries);
            assert(total(tally_of(shares@)) == found);
            if shows_foreign(&shares, mine) {
                let first = context_of(&shares, mine, client);
                proof {
                    if results@.plain(MAX_DEPTH as nat) && found <= i64::MAX {
                        let all = seq![first@] + contents(entries@);
                        plain_with_room(first@, 3, (MAX_DEPTH - 1) as nat);
                        assert forall|i: int| 0 <= i < all.len() implies (#[trigger] all[i]).plain(
                            (MAX_DEPTH - 1) as nat,
                        ) by {
                            if i > 0 {
                                assert(all[i] == contents(entries@)[i - 1]);
                            }
                        }
                    }
                }
                prepend(first, entries)
            } else {
                Json::Array(entries)
            }
        },
        other => other,
    }
}

/// The agent gets all results of its search, in their order, whatever precedes them.
pub proof fn context_keeps_the_results(
    entries: Seq<JsonView>,
    mine: Option<Seq<char>>,
    client: Seq<char>,
)
    ensures
        with_context(JsonView::Array(entries), mine, client) matches JsonView::Array(shown) && (
        shown == entries || shown.len() == entries.len() + 1 && shown.skip(1) == entries),
{
    let c = context_element(tally(entries), mine, client);
    assert((seq![c] + entries).skip(1) =~= entries);
}

/// An agent is warned exactly when some entry is not its own.
pub proof fn the_warning_comes_with_foreign_entries(
    entries: Seq<JsonView>,
    mine: Seq<char>,
    client: Seq<char>,
)
    ensures
        (with_context(JsonView::Array(entries), Some(mine), client) != JsonView::Array(entries))
            == exists|i: int| 0 <= i < entries.len() && source_of(#[trigger] entries[i]) != mine,
{
    let t = tally(entries);
    a_tally_counts_each_source(entries);
    if needs_context(t, Some(mine)) {
        let i = choose|i: int| 0 <= i < t.len() && (#[trigger] t[i]).0 != mine;
        occurring_is_somewhere(entries, t[i].0);
    }
    if exists|i: int| 0 <= i < entries.len() && source_of(#[trigger] entries[i]) != mine {
        let i = choose|i: int| 0 <= i < entries.len() && source_of(#[trigger] entries[i]) != mine;
        somewhere_is_occurring(entries, i);
        slot_finds(t, source_of(entries[i]));
    }
    let c = context_element(t, Some(mine), client);
    assert((seq![c] + entries).len() != entries.len());
}

proof fn occurring_is_somewhere(entries: Seq<JsonView>, source: Seq<char>)
    requires
        occurrences(entries, source) > 0,
    ensures
        exists|i: int| 0 <= i < entries.len() && source_of(#[trigger] entries[i]) == source,
    decreases entries.len(),
{
    if source_of(entries.last()) == source {
        assert(source_of(entries[entries.len() - 1]) == source);
    } else {
        occurring_is_somewhere(entries.drop_last(), source);
        let i = choose|i: int|
            0 <= i < entries.len() - 1 && source_of(#[trigger] entries.drop_last()[i]) == source;
        assert(source_of(entries[i]) == source);
    }
}

proof fn somewhere_is_occurring(entries: Seq<JsonView>, i: int)
    requires
        0 <= i < entries.len(),
    ensures
        occurrences(entries, source_of(entries[i])) > 0,
    decreases entries.len(),
{
    if i < entries.len() - 1 {
        somewhere_is_occurring(entries.drop_last(), i);
    }
}

// ---------------------------------------------------------------------------
// Laws
// ---------------------------------------------------------------------------

/// Whether an entry comes from a source: the one that it names, or the unknown one.
pub open spec fn comes_from(entry: JsonView, source: Seq<char>) -> bool {
    entry.text_field("source"@) == Some(source) || entry.text_field("source"@) is None && source
        == "unknown"@
}

/// How many of the entries come from a source.
pub open spec fn number_from(entries: Seq<JsonView>, source: Seq<char>) -> nat {
    entries.filter(|e: JsonView| comes_from(e, source)).len()
}

/// Whether some of the entries are not the agent's own. An agent without a source owns none.
pub open spec fn has_foreign(entries: Seq<JsonView>, mine: Option<Seq<char>>) -> bool {
    exists|i: int|
        0 <= i < entries.len() && (mine is None || !comes_from(#[trigger] entries[i], mine->0))
}

/// Whether a warning tells an agent, whose source is `mine`, how many of the entries come from
/// which others.
pub open spec fn tells_of_others(warning: Seq<char>, entries: Seq<JsonView>, mine: Seq<char>) -> bool {
    exists|others: Seq<Seq<char>>|
        {
            &&& others.no_duplicates()
            &&& forall|source: Seq<char>|
                #[trigger] others.contains(source) <==> source != mine && number_from(
                    entries,
                    source,
                ) > 0
            &&& warning == #[trigger] warning_about(others, entries, mine)
        }
}

/// The warning about some other sources, in words.
pub open spec fn warning_about(
    others: Seq<Seq<char>>,
    entries: Seq<JsonView>,
    mine: Seq<char>,
) -> Seq<char> {
    let count = entries.len() - number_from(entries, mine);
    decimal(count as nat) + (if count == 1 {
        " entry from other agent(s) ("@
    } else {
        " entries from other agent(s) ("@
    }) + join(
        others.map_values(
            |source: Seq<char>| source + ": "@ + decimal(number_from(entries, source)),
        ),
        ", "@,
    )
        + ") are included in these results. Do NOT treat them as your own memories. Check the 'source' field of each entry."@
}

/// Whether what an agent is shown are these entries, after an element that names the agent's
/// source, counts the entries by source, and warns of those that are not the agent's own.
pub open spec fn is_warned(
    shown: JsonView,
    entries: Seq<JsonView>,
    mine: Option<Seq<char>>,
    client: Seq<char>,
) -> bool {
    &&& shown matches JsonView::Array(all)
    &&& all.len() == entries.len() + 1
    &&& all.skip(1) == entries
    &&& all[0].field("_context"@) matches Some(context)
    &&& context.text_field("your_source"@) == Some(match mine {
        Some(m) => m,
        None => "unknown"@,
    })
    &&& context.field("results_breakdown"@) matches Some(JsonView::Object(counts))
    &&& forall|source: Seq<char>|
        #[trigger] counts.contains_key(source) <==> number_from(entries, source) > 0
    &&& forall|source: Seq<char>| #[trigger]
        counts.contains_key(source) ==> counts[source] == JsonView::Number(
            number_of_u64(number_from(entries, source) as u64),
        )
    &&& context.text_field("warning"@) matches Some(warning)
    &&& match mine {
        Some(m) => tells_of_others(warning, entries, m),
        None => warning == "Source filter is not available for client '"@ + client
            + "'. Results include memories from ALL agents. Check the 'source' field of each entry to identify which agent it came from."@,
    }
}

proof fn sources_are_counted(entries: Seq<JsonView>, source: Seq<char>)
    ensures
        number_from(entries, source) == occurrences(entries, source),
        number_from(entries, source) <= entries.len(),
    decreases entries.len(),
{
    reveal(Seq::filter);
    if entries.len() > 0 {
        sources_are_counted(entries.drop_last(), source);
    }
}

proof fn object_of_tally(t: Tally)
    requires
        forall|i: int, j: int|
            0 <= i < j < t.len() ==> (#[trigger] t[i]).0 != (#[trigger] t[j]).0,
    ensures
        forall|i: int|
            0 <= i < t.len() ==> tally_object(t).contains_key((#[trigger] t[i]).0) && tally_object(
                t,
            )[t[i].0] == JsonView::Number(number_of_u64(t[i].1 as u64)),
        forall|source: Seq<char>| #[trigger]
            tally_object(t).contains_key(source) ==> slot(t, source) < t.len(),
    decreases t.len(),
{
    if t.len() > 0 {
        let before = t.drop_last();
        assert forall|i: int, j: int| 0 <= i < j < before.len() implies (#[trigger] before[i]).0
            != (#[trigger] before[j]).0 by {
            assert(t[i].0 != t[j].0);
        }
        object_of_tally(before);
        let last = t.len() - 1;
        assert forall|i: int| 0 <= i < t.len() implies tally_object(t).contains_key(
            (#[trigger] t[i]).0,
        ) && tally_object(t)[t[i].0] == JsonView::Number(number_of_u64(t[i].1 as u64)) by {
            if i < last {
                assert(before[i] == t[i]);
                assert(t[i].0 != t[last].0);
            }
        }
        assert forall|source: Seq<char>| #[trigger]
            tally_object(t).contains_key(source) implies slot(t, source) < t.len() by {
            slot_finds(t, source);
            if slot(t, source) == t.len() {
                assert(t[last].0 != source);
                slot_finds(before, source);
                let k = slot(before, source);
                assert(before[k].0 == source);
                assert(t[k].0 != source);
            }
        }
    }
}

proof fn foreign_shares(t: Tally, mine: Seq<char>)
    requires
        forall|i: int, j: int|
            0 <= i < j < t.len() ==> (#[trigger] t[i]).0 != (#[trigger] t[j]).0,
    ensures
        forall|i: int|
            0 <= i < foreign(t, mine).len() ==> (#[trigger] foreign(t, mine)[i]).0 != mine
                && t.contains(foreign(t, mine)[i]),
        forall|i: int|
            0 <= i < t.len() && (#[trigger] t[i]).0 != mine ==> foreign(t, mine).contains(t[i]),
        forall|i: int, j: int|
            0 <= i < j < foreign(t, mine).len() ==> (#[trigger] foreign(t, mine)[i]).0 != (
            #[trigger] foreign(t, mine)[j]).0,
        slot(t, mine) < t.len() ==> total(foreign(t, mine)) + t[slot(t, mine)].1 == total(t),
        slot(t, mine) == t.len() ==> total(foreign(t, mine)) == total(t),
    decreases t.len(),
{
    slot_finds(t, mine);
    if t.len() > 0 {
        let before = t.drop_last();
        let last = t.last();
        let f = foreign(before, mine);
        assert forall|i: int, j: int| 0 <= i < j < before.len() implies (#[trigger] before[i]).0
            != (#[trigger] before[j]).0 by {
            assert(t[i].0 != t[j].0);
        }
        foreign_shares(before, mine);
        slot_finds(before, mine);
        assert forall|x: (Seq<char>, nat)| before.contains(x) implies t.contains(x) && x.0
            != last.0 by {
            let i = choose|i: int| 0 <= i < before.len() && before[i] == x;
            assert(t[i] == x);
            assert(t[i].0 != t[t.len() - 1].0);
        }
        assert(t[t.len() - 1] == last);
        assert(t.contains(last));
        if last.0 == mine {
            if slot(before, mine) < before.len() {
                assert(t[slot(before, mine)].0 != t[t.len() - 1].0);
            }
            assert forall|j: int| 0 <= j < t.len() - 1 implies (#[trigger] t[j]).0 != mine by {
                assert(before[j].0 != mine);
            }
            slot_is(t, mine, t.len() - 1);
        } else {
            assert(f.push(last).drop_last() =~= f);
            let k = slot(before, mine);
            if k < before.len() {
                assert forall|j: int| 0 <= j < k implies (#[trigger] t[j]).0 != mine by {
                    assert(before[j].0 != mine);
                }
                slot_is(t, mine, k);
            } else {
                assert forall|j: int| 0 <= j < t.len() implies (#[trigger] t[j]).0 != mine by {
                    if j < t.len() - 1 {
                        assert(before[j].0 != mine);
                    }
                }
                slot_is(t, mine, t.len() as int);
            }
            assert(f.push(last)[f.len() as int] == last);
        }
        assert forall|i: int| 0 <= i < t.len() && (#[trigger] t[i]).0 != mine implies foreign(
            t,
            mine,
        ).contains(t[i]) by {
            if i < t.len() - 1 {
                assert(before[i] == t[i]);
                let j = choose|j: int| 0 <= j < f.len() && f[j] == t[i];
                assert(foreign(t, mine)[j] == t[i]);
            } else {
                assert(foreign(t, mine)[f.len() as int] == t[i]);
            }
        }
        assert forall|i: int, j: int| 0 <= i < j < foreign(t, mine).len() implies (
        #[trigger] foreign(t, mine)[i]).0 != (#[trigger] foreign(t, mine)[j]).0 by {
            assert(before.contains(f[i]));
        }
    }
}

/// An agent is shown all entries that its search found. Where some of them are not its own, an
/// element precedes them that says so, and otherwise nothing does. What is no array is shown as
/// it is.
pub proof fn foreign_results_come_with_a_warning(
    results: JsonView,
    mine: Option<Seq<char>>,
    client: Seq<char>,
)
    ensures
        results matches JsonView::Array(entries) ==> {
            &&& has_foreign(entries, mine) ==> is_warned(
                with_context(results, mine, client),
                entries,
                mine,
                client,
            )
            &&& !has_foreign(entries, mine) ==> with_context(results, mine, client) == results
        },
        !(results is Array) ==> with_context(results, mine, client) == results,
{
    if let JsonView::Array(entries) = results {
        let t = tally(entries);
        a_tally_counts_each_source(entries);
        every_entry_is_counted(entries);
        foreign_is_needed(entries, mine);
        if has_foreign(entries, mine) {
            let c = context_element(t, mine, client);
            let all = seq![c] + entries;
            assert(all.skip(1) =~= entries);
            keys_of_the_context();
            object_of_tally(t);
            let counts = tally_object(t);
            assert forall|source: Seq<char>| #[trigger]
                counts.contains_key(source) <==> number_from(entries, source) > 0 by {
                sources_are_counted(entries, source);
                slot_finds(t, source);
                if slot(t, source) < t.len() {
                    assert(t[slot(t, source)].1 > 0);
                }
            }
            assert forall|source: Seq<char>| #[trigger]
                counts.contains_key(source) implies counts[source] == JsonView::Number(
                number_of_u64(number_from(entries, source) as u64),
            ) by {
                sources_are_counted(entries, source);
                slot_finds(t, source);
                let k = slot(t, source);
                assert(t[k].1 == occurrences(entries, t[k].0));
            }
            if let Some(m) = mine {
                the_warning_tells_of_others(entries, m);
            }
        }
    }
}

proof fn keys_of_the_context()
    ensures
        "your_source"@ != "results_breakdown"@,
        "your_source"@ != "warning"@,
        "results_breakdown"@ != "warning"@,
{
    reveal_strlit("your_source");
    reveal_strlit("results_breakdown");
    reveal_strlit("warning");
    assert("your_source"@.len() == 11);
    assert("results_breakdown"@.len() == 17);
    assert("warning"@.len() == 7);
}

proof fn foreign_is_needed(entries: Seq<JsonView>, mine: Option<Seq<char>>)
    ensures
        needs_context(tally(entries), mine) == has_foreign(entries, mine),
{
    let t = tally(entries);
    every_entry_is_counted(entries);
    match mine {
        Some(m) => {
            a_tally_counts_each_source(entries);
            if needs_context(t, mine) {
                let i = choose|i: int| 0 <= i < t.len() && (#[trigger] t[i]).0 != m;
                occurring_is_somewhere(entries, t[i].0);
                let j = choose|j: int|
                    0 <= j < entries.len() && source_of(#[trigger] entries[j]) == t[i].0;
                assert(!comes_from(entries[j], m));
            }
            if has_foreign(entries, mine) {
                let i = choose|i: int| 0 <= i < entries.len() && !comes_from(#[trigger] entries[i], m);
                somewhere_is_occurring(entries, i);
                slot_finds(t, source_of(entries[i]));
            }
        },
        None => {
            if entries.len() > 0 {
                assert(entries[0] == entries[0]);
            }
        },
    }
}

proof fn the_warning_tells_of_others(entries: Seq<JsonView>, mine: Seq<char>)
    ensures
        tells_of_others(foreign_warning(tally(entries), mine), entries, mine),
{
    let t = tally(entries);
    let f = foreign(t, mine);
    a_tally_counts_each_source(entries);
    every_entry_is_counted(entries);
    foreign_shares(t, mine);
    let others = f.map_values(|s: (Seq<char>, nat)| s.0);
    assert forall|i: int, j: int| 0 <= i < others.len() && 0 <= j < others.len() && i
        != j implies others[i] != others[j] by {
        if i < j {
            assert(f[i].0 != f[j].0);
        } else {
            assert(f[j].0 != f[i].0);
        }
    }
    assert forall|source: Seq<char>| #[trigger]
        others.contains(source) <==> source != mine && number_from(entries, source) > 0 by {
        sources_are_counted(entries, source);
        slot_finds(t, source);
        if others.contains(source) {
            let i = choose|i: int| 0 <= i < others.len() && others[i] == source;
            assert(f[i].0 == source);
            let k = choose|k: int| 0 <= k < t.len() && t[k] == f[i];
            assert(t[k].1 > 0);
        }
        if source != mine && number_from(entries, source) > 0 {
            let k = slot(t, source);
            assert(t[k].0 == source);
            let i = choose|i: int| 0 <= i < f.len() && f[i] == t[k];
            assert(others[i] == source);
        }
    }
    sources_are_counted(entries, mine);
    slot_finds(t, mine);
    if slot(t, mine) < t.len() {
        assert(t[slot(t, mine)].1 == occurrences(entries, t[slot(t, mine)].0));
    }
    assert(total(f) == entries.len() - number_from(entries, mine));
    let told = others.map_values(
        |source: Seq<char>| source + ": "@ + decimal(number_from(entries, source)),
    );
    let said = f.map_values(|s: (Seq<char>, nat)| share_text(s));
    assert forall|i: int| 0 <= i < f.len() implies told[i] == said[i] by {
        sources_are_counted(entries, f[i].0);
        let k = choose|k: int| 0 <= k < t.len() && t[k] == f[i];
        assert(t[k].1 == occurrences(entries, t[k].0));
    }
    assert(told =~= said);
    assert(foreign_warning(t, mine) == warning_about(others, entries, mine));
}

} // verus!
