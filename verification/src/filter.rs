use crate::date::CalendarDate;
use crate::item::{Field, WorkItem};
use crate::text::{contains, is_substring, lowercase, to_lowercase, trim, trimmed};
use vstd::prelude::*;

verus! {

/// A query as the search compares it: without the whitespace at its ends, in
/// lowercase.
pub open spec fn normalized(query: Seq<char>) -> Seq<char> {
    lowercase(trimmed(query))
}

/// Whether the item has text in the field and that text, in lowercase, holds
/// the needle.
pub open spec fn field_holds<T: WorkItem>(item: T, needle: Seq<char>, field: Field) -> bool {
    item.text_of(field) matches Some(t) && is_substring(needle, lowercase(t))
}

/// Whether one of the selected fields holds the needle.
pub open spec fn some_field_holds<T: WorkItem>(
    item: T,
    needle: Seq<char>,
    fields: Seq<Field>,
) -> bool {
    exists|k: int| 0 <= k < fields.len() && field_holds(item, needle, #[trigger] fields[k])
}

/// Whether the search keeps the item: every item under a query of which
/// trimming leaves nothing, else the items of which a selected field holds
/// the normalized query.
pub open spec fn matches_query<T: WorkItem>(item: T, query: Seq<char>, fields: Seq<Field>) -> bool {
    trimmed(query).len() == 0 || some_field_holds(item, normalized(query), fields)
}

/// The items that the search keeps, in their order.
pub open spec fn text_search_spec<T: WorkItem>(
    items: Seq<T>,
    query: Seq<char>,
    fields: Seq<Field>,
) -> Seq<T> {
    items.filter(|item: T| matches_query(item, query, fields))
}

/// Whether the date filter keeps the item: one whose field names a day from
/// `start` to `end`, and one whose field names no day at all.
pub open spec fn in_date_range<T: WorkItem>(
    item: T,
    start: CalendarDate,
    end: CalendarDate,
    field: Field,
) -> bool {
    match item.date_of(field) {
        Some(day) => day.within(start, end),
        None => true,
    }
}

/// The items that the date filter keeps, in their order.
pub open spec fn date_range_spec<T: WorkItem>(
    items: Seq<T>,
    start: CalendarDate,
    end: CalendarDate,
    field: Field,
) -> Seq<T> {
    items.filter(|item: T| in_date_range(item, start, end, field))
}

/// A filter that keeps every item of a sequence gives the sequence back.
pub proof fn lemma_filter_keeps_all<A>(items: Seq<A>, keep: spec_fn(A) -> bool)
    requires
        forall|i: int| 0 <= i < items.len() ==> keep(#[trigger] items[i]),
    ensures
        items.filter(keep) == items,
    decreases items.len(),
{
    reveal(Seq::filter);
    if items.len() > 0 {
        lemma_filter_keeps_all(items.drop_last(), keep);
    }
}

/// What a filter kept, it keeps again.
pub proof fn lemma_filter_idempotent<A>(items: Seq<A>, keep: spec_fn(A) -> bool)
    ensures
        items.filter(keep).filter(keep) == items.filter(keep),
{
    let kept = items.filter(keep);
    assert forall|i: int| 0 <= i < kept.len() implies keep(#[trigger] kept[i]) by {
        items.lemma_filter_pred(keep, i);
    }
    lemma_filter_keeps_all(kept, keep);
}

/// Two filters one after the other keep the same in either order.
pub proof fn lemma_filters_commute<A>(
    items: Seq<A>,
    first: spec_fn(A) -> bool,
    second: spec_fn(A) -> bool,
)
    ensures
        items.filter(first).filter(second) == items.filter(second).filter(first),
    decreases items.len(),
{
    reveal(Seq::filter);
    if items.len() > 0 {
        let front = items.drop_last();
        let last = items.last();
        lemma_filters_commute(front, first, second);
        front.filter(first).lemma_filter_push(last, second);
        front.filter(second).lemma_filter_push(last, first);
    }
}

/// What a filter kept stood in the sequence and meets the filter's condition,
/// and the filter kept no more items than there were.
pub proof fn lemma_filter_is_subset<A>(items: Seq<A>, keep: spec_fn(A) -> bool)
    ensures
        items.filter(keep).len() <= items.len(),
        forall|i: int|
            0 <= i < items.filter(keep).len() ==> items.contains(#[trigger] items.filter(keep)[i])
                && keep(items.filter(keep)[i]),
    decreases items.len(),
{
    reveal(Seq::filter);
    if items.len() > 0 {
        let front = items.drop_last();
        lemma_filter_is_subset(front, keep);
        let kept = items.filter(keep);
        assert forall|i: int| 0 <= i < kept.len() implies items.contains(#[trigger] kept[i])
            && keep(kept[i]) by {
            if i < front.filter(keep).len() {
                let at = choose|j: int| 0 <= j < front.len() && front[j] == front.filter(keep)[i];
                assert(items[at] == kept[i]);
            } else {
                assert(items[items.len() - 1] == kept[i]);
            }
        }
    }
}

/// A search under the empty query keeps every item.
pub proof fn lemma_text_search_identity<T: WorkItem>(items: Seq<T>, fields: Seq<Field>)
    ensures
        text_search_spec(items, Seq::<char>::empty(), fields) == items,
{
    lemma_text_search_blank(items, Seq::<char>::empty(), fields);
}

/// A search under a query of which trimming leaves nothing keeps every item.
pub proof fn lemma_text_search_blank<T: WorkItem>(
    items: Seq<T>,
    query: Seq<char>,
    fields: Seq<Field>,
)
    requires
        trimmed(query).len() == 0,
    ensures
        text_search_spec(items, query, fields) == items,
{
    lemma_filter_keeps_all(items, |item: T| matches_query(item, query, fields));
}

/// A search of what the same search kept keeps all of it.
pub proof fn lemma_text_search_idempotent<T: WorkItem>(
    items: Seq<T>,
    query: Seq<char>,
    fields: Seq<Field>,
)
    ensures
        text_search_spec(text_search_spec(items, query, fields), query, fields)
            == text_search_spec(items, query, fields),
{
    lemma_filter_idempotent(items, |item: T| matches_query(item, query, fields));
}

/// What the date filter kept stood among the items, and each kept item names
/// a day from `start` to `end` or names no day.
pub proof fn lemma_date_range_subset<T: WorkItem>(
    items: Seq<T>,
    start: CalendarDate,
    end: CalendarDate,
    field: Field,
)
    ensures
        date_range_spec(items, start, end, field).len() <= items.len(),
        forall|i: int|
            0 <= i < date_range_spec(items, start, end, field).len() ==> {
                let kept = #[trigger] date_range_spec(items, start, end, field)[i];
                &&& items.contains(kept)
                &&& kept.date_of(field) matches Some(day) ==> day.within(start, end)
            },
{
    lemma_filter_is_subset(items, |item: T| in_date_range(item, start, end, field));
}

/// The search and the date filter keep the same items in either order.
pub proof fn lemma_search_and_date_range_commute<T: WorkItem>(
    items: Seq<T>,
    query: Seq<char>,
    fields: Seq<Field>,
    start: CalendarDate,
    end: CalendarDate,
    field: Field,
)
    ensures
        date_range_spec(text_search_spec(items, query, fields), start, end, field)
            == text_search_spec(date_range_spec(items, start, end, field), query, fields),
{
    lemma_filters_commute(
        items,
        |item: T| matches_query(item, query, fields),
        |item: T| in_date_range(item, start, end, field),
    );
}

/// Whether one of the texts holds the needle. Texts and needle are compared
/// as they are.
pub fn holds_in_some_text(lowered: &Vec<String>, needle: &str) -> (r: bool)
    ensures
        r == exists|k: int|
            0 <= k < lowered@.len() && is_substring(needle@, (#[trigger] lowered@[k])@),
{
    let mut k: usize = 0;
    while k < lowered.len()
        invariant
            k <= lowered.len(),
            forall|j: int| 0 <= j < k ==> !is_substring(needle@, (#[trigger] lowered@[j])@),
        decreases lowered.len() - k,
    {
        if contains(lowered[k].as_str(), needle) {
            return true;
        }
        k += 1;
    }
    false
}

/// Whether one of the selected fields of the item, in lowercase, holds the
/// needle.
pub fn holds_in_some_field<T: WorkItem>(item: &T, needle: &str, fields: &Vec<Field>) -> (r: bool)
    ensures
        r == some_field_holds(*item, needle@, fields@),
{
    let mut lowered: Vec<String> = Vec::new();
    let mut k: usize = 0;
    while k < fields.len()
        invariant
            k <= fields.len(),
            forall|j: int|
                0 <= j < k && field_holds(*item, needle@, #[trigger] fields@[j]) ==> exists|m: int|
                    0 <= m < lowered@.len() && is_substring(needle@, (#[trigger] lowered@[m])@),
            forall|m: int|
                0 <= m < lowered@.len() && is_substring(needle@, (#[trigger] lowered@[m])@)
                    ==> exists|j: int|
                    0 <= j < k && field_holds(*item, needle@, #[trigger] fields@[j]),
        decreases fields.len() - k,
    {
        let ghost before = lowered@;
        match item.text(fields[k]) {
            Some(t) => {
                lowered.push(to_lowercase(t));
            },
            None => {},
        }
        proof {
            assert forall|j: int|
                0 <= j < k + 1 && field_holds(
                    *item,
                    needle@,
                    #[trigger] fields@[j],
                ) implies exists|m: int|
                0 <= m < lowered@.len() && is_substring(needle@, (#[trigger] lowered@[m])@) by {
                if j < k {
                    let m = choose|m: int|
                        0 <= m < before.len() && is_substring(needle@, (#[trigger] before[m])@);
                    assert(lowered@[m] == before[m]);
                } else {
                    assert(is_substring(needle@, lowered@[lowered@.len() - 1]@));
                }
            }
            assert forall|m: int|
                0 <= m < lowered@.len() && is_substring(
                    needle@,
                    (#[trigger] lowered@[m])@,
                ) implies exists|j: int|
                0 <= j < k + 1 && field_holds(*item, needle@, #[trigger] fields@[j]) by {
                if m < before.len() {
                    let j = choose|j: int|
                        0 <= j < k && field_holds(*item, needle@, #[trigger] fields@[j]);
                    assert(field_holds(*item, needle@, fields@[j]));
                } else {
                    assert(field_holds(*item, needle@, fields@[k as int]));
                }
            }
        }
        k += 1;
    }
    holds_in_some_text(&lowered, needle)
}

/// Keeps the items of which one of the selected fields, in lowercase, holds
/// the query, itself trimmed and in lowercase. A query of which trimming
/// leaves nothing, the empty one above all, keeps every item. The items stay
/// in their order and `items` is left as it was.
pub fn text_search<T: WorkItem + Copy>(items: &Vec<T>, query: &str, fields: &Vec<Field>) -> (r:
    Vec<T>)
    ensures
        r@ == text_search_spec(items@, query@, fields@),
        query@.len() == 0 ==> r@ == items@,
        trimmed(query@).len() == 0 ==> r@ == items@,
{
    let core = trim(query);
    let everything = core.unicode_len() == 0;
    let needle = to_lowercase(core);
    let ghost keep = |item: T| matches_query(item, query@, fields@);
    let mut kept: Vec<T> = Vec::new();
    let mut i: usize = 0;
    while i < items.len()
        invariant
            i <= items.len(),
            needle@ == normalized(query@),
            everything == (trimmed(query@).len() == 0),
            keep == |item: T| matches_query(item, query@, fields@),
            kept@ == items@.take(i as int).filter(keep),
        decreases items.len() - i,
    {
        let item = items[i];
        proof {
            assert(items@.take(i as int + 1) == items@.take(i as int).push(item));
            items@.take(i as int).lemma_filter_push(item, keep);
        }
        if everything || holds_in_some_field(&item, needle.as_str(), fields) {
            kept.push(item);
        }
        i += 1;
    }
    proof {
        assert(items@.take(items.len() as int) == items@);
        if trimmed(query@).len() == 0 {
            lemma_text_search_blank(items@, query@, fields@);
        }
    }
    kept
}

/// Keeps the items whose field names a day from `start` to `end`, both
/// included, and those whose field names no day. The items stay in their
/// order and `items` is left as it was.
pub fn date_range_filter<T: WorkItem + Copy>(
    items: &Vec<T>,
    start: CalendarDate,
    end: CalendarDate,
    field: Field,
) -> (r: Vec<T>)
    ensures
        r@ == date_range_spec(items@, start, end, field),
        r@.len() <= items@.len(),
        forall|i: int|
            0 <= i < r@.len() ==> {
                &&& items@.contains(#[trigger] r@[i])
                &&& r@[i].date_of(field) matches Some(day) ==> day.within(start, end)
            },
{
    let ghost keep = |item: T| in_date_range(item, start, end, field);
    let mut kept: Vec<T> = Vec::new();
    let mut i: usize = 0;
    while i < items.len()
        invariant
            i <= items.len(),
            keep == |item: T| in_date_range(item, start, end, field),
            kept@ == items@.take(i as int).filter(keep),
        decreases items.len() - i,
    {
        let item = items[i];
        proof {
            assert(items@.take(i as int + 1) == items@.take(i as int).push(item));
            items@.take(i as int).lemma_filter_push(item, keep);
        }
        let inside = match item.date(field) {
            Some(day) => day.is_within(&start, &end),
            None => true,
        };
        if inside {
            kept.push(item);
        }
        i += 1;
    }
    proof {
        assert(items@.take(items.len() as int) == items@);
        lemma_date_range_subset(items@, start, end, field);
    }
    kept
}

/// What is shown of a collection: what the search keeps and, where a range
/// of days is given, of that what the date filter keeps.
pub open spec fn select_spec<T: WorkItem>(
    items: Seq<T>,
    query: Seq<char>,
    fields: Seq<Field>,
    range: Option<(CalendarDate, CalendarDate)>,
    date_field: Field,
) -> Seq<T> {
    match range {
        Some((start, end)) => date_range_spec(
            text_search_spec(items, query, fields),
            start,
            end,
            date_field,
        ),
        None => text_search_spec(items, query, fields),
    }
}

/// Derives what is to be shown from the full collection: the search, then,
/// where a range of days is given, the date filter. `items` is left as it
/// was, so that another query or range starts from all of it again.
pub fn select<T: WorkItem + Copy>(
    items: &Vec<T>,
    query: &str,
    fields: &Vec<Field>,
    range: Option<(CalendarDate, CalendarDate)>,
    date_field: Field,
) -> (r: Vec<T>)
    ensures
        r@ == select_spec(items@, query@, fields@, range, date_field),
{
    let found = text_search(items, query, fields);
    match range {
        Some((start, end)) => date_range_filter(&found, start, end, date_field),
        None => found,
    }
}

/// The items of a collection by reference, in their order: what the filters
/// take and give, so that the collection itself is never changed.
pub fn view_of<'a, T>(items: &'a Vec<T>) -> (r: Vec<&'a T>)
    ensures
        r@.len() == items@.len(),
        forall|i: int| 0 <= i < r@.len() ==> *(#[trigger] r@[i]) == items@[i],
{
    let mut all: Vec<&'a T> = Vec::new();
    let mut i: usize = 0;
    while i < items.len()
        invariant
            i <= items.len(),
            all@.len() == i,
            forall|j: int| 0 <= j < i ==> *(#[trigger] all@[j]) == items@[j],
        decreases items.len() - i,
    {
        all.push(&items[i]);
        i += 1;
    }
    all
}

} // verus!
