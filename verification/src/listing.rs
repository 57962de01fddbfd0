//! Lists in prose: items set one after another with a comma and a space
//! between them, and values put in ascending order first.

use vstd::prelude::*;
use vstd::relations::sorted_by;
use vstd::seq_lib::{lemma_sorted_unique, to_multiset_build, to_multiset_insert};
use crate::decimal::{decimal, decimal_text};
use crate::model::Cell;
use crate::names::{cell_label, cell_name};

verus! {

/// The items of a list in one text, with a comma and a space between
/// neighbours. The empty list gives the empty text.
pub open spec fn listing(items: Seq<Seq<char>>) -> Seq<char>
    decreases items.len(),
{
    if items.len() == 0 {
        Seq::empty()
    } else if items.len() == 1 {
        items[0]
    } else {
        listing(items.drop_last()) + ", "@ + items.last()
    }
}

/// The order of values: smaller or equal.
pub open spec fn at_most() -> spec_fn(u32, u32) -> bool {
    |a: u32, b: u32| a <= b
}

/// The values in ascending order, each as often as it was given.
pub open spec fn ascending(values: Seq<u32>) -> Seq<u32> {
    values.sort_by(at_most())
}

/// The values in ascending order, written out as a list.
pub open spec fn values_listing(values: Seq<u32>) -> Seq<char> {
    listing(ascending(values).map_values(|value: u32| decimal(value as nat)))
}

/// The names of the cells, in the order given, written out as a list.
pub open spec fn cells_listing(cells: Seq<Cell>) -> Seq<char> {
    listing(cells.map_values(|cell: Cell| cell_name(cell)))
}

/// Whether each of the cells can be named.
pub open spec fn all_nameable(cells: Seq<Cell>) -> bool {
    forall|i: int| 0 <= i < cells.len() ==> (#[trigger] cells[i]).is_nameable()
}

/// Ascending order is what it says: the result is in order and holds every
/// value as often as the input does.
pub proof fn lemma_ascending_orders(values: Seq<u32>)
    ensures
        sorted_by(ascending(values), at_most()),
        ascending(values).to_multiset() == values.to_multiset(),
        ascending(values).len() == values.len(),
        forall|i: int, j: int|
            0 <= i <= j < values.len() ==> ascending(values)[i] <= ascending(values)[j],
{
    values.lemma_sort_by_ensures(at_most());
    values.to_multiset_ensures();
    ascending(values).to_multiset_ensures();
    let sorted = ascending(values);
    assert forall|i: int, j: int| 0 <= i <= j < values.len() implies sorted[i] <= sorted[j] by {
        if i < j {
            assert(at_most()(sorted[i], sorted[j]));
        }
    }
}

/// The order in which values are given does not show in their ascending
/// order: two inputs that hold the same values equally often give the same
/// result.
pub proof fn lemma_ascending_ignores_order(first: Seq<u32>, second: Seq<u32>)
    requires
        first.to_multiset() == second.to_multiset(),
    ensures
        ascending(first) == ascending(second),
        values_listing(first) == values_listing(second),
{
    first.lemma_sort_by_ensures(at_most());
    second.lemma_sort_by_ensures(at_most());
    lemma_sorted_unique(ascending(first), ascending(second), at_most());
}

/// Puts the values in ascending order.
pub fn sorted_values(values: &Vec<u32>) -> (sorted: Vec<u32>)
    ensures
        sorted@ == ascending(values@),
{
    let mut sorted: Vec<u32> = Vec::new();
    let mut done: usize = 0;
    proof {
        assert(sorted@ =~= values@.take(0));
    }
    while done < values.len()
        invariant
            done <= values.len(),
            sorted_by(sorted@, at_most()),
            sorted@.to_multiset() == values@.take(done as int).to_multiset(),
        decreases values.len() - done,
    {
        let value: u32 = values[done];
        let mut at: usize = 0;
        while at < sorted.len() && sorted[at] <= value
            invariant
                at <= sorted.len(),
                forall|k: int| 0 <= k < at ==> sorted@[k] <= value,
            decreases sorted.len() - at,
        {
            at += 1;
        }
        let ghost before = sorted@;
        sorted.insert(at, value);
        proof {
            to_multiset_insert(before, at as int, value);
            to_multiset_build(values@.take(done as int), value);
            assert(values@.take(done + 1) =~= values@.take(done as int).push(value));
            assert forall|i: int, j: int| 0 <= i < j < sorted@.len() implies #[trigger] at_most()(
                sorted@[i],
                sorted@[j],
            ) by {
                if j < at {
                    assert(at_most()(before[i], before[j]));
                } else if j == at {
                } else if i < at {
                    assert(at_most()(before[i], before[j - 1]));
                } else if i == at {
                    if at < j - 1 {
                        assert(at_most()(before[at as int], before[j - 1]));
                    }
                } else {
                    assert(at_most()(before[i - 1], before[j - 1]));
                }
            }
        }
        done += 1;
    }
    proof {
        assert(values@.take(done as int) =~= values@);
        values@.lemma_sort_by_ensures(at_most());
        lemma_sorted_unique(sorted@, ascending(values@), at_most());
    }
    sorted
}

/// Sets the items one after another, with a comma and a space between
/// neighbours.
pub fn join_listing(items: &Vec<String>) -> (text: String)
    ensures
        text@ == listing(items@.map_values(|item: String| item@)),
{
    let ghost texts = items@.map_values(|item: String| item@);
    let mut text = String::new();
    let mut done: usize = 0;
    while done < items.len()
        invariant
            done <= items.len(),
            texts == items@.map_values(|item: String| item@),
            text@ == listing(texts.take(done as int)),
        decreases items.len() - done,
    {
        if done > 0 {
            text.append(", ");
        }
        text.append(items[done].as_str());
        proof {
            let taken = texts.take(done + 1);
            assert(taken.drop_last() =~= texts.take(done as int));
            assert(taken.last() == items@[done as int]@);
            if done == 0 {
                assert(text@ =~= taken[0]);
            } else if done == 1 {
                assert(texts.take(1).len() == 1);
                assert(listing(texts.take(1)) == texts.take(1)[0]);
            }
        }
        done += 1;
    }
    proof {
        assert(texts.take(done as int) =~= texts);
    }
    text
}

/// Writes the values out in ascending order as a list.
pub fn values_text(values: &Vec<u32>) -> (text: String)
    ensures
        text@ == values_listing(values@),
{
    let sorted = sorted_values(values);
    let mut items: Vec<String> = Vec::new();
    let mut done: usize = 0;
    while done < sorted.len()
        invariant
            done <= sorted.len(),
            items@.len() == done,
            forall|i: int| 0 <= i < done ==> (#[trigger] items@[i])@ == decimal(sorted@[i] as nat),
        decreases sorted.len() - done,
    {
        items.push(decimal_text(sorted[done]));
        done += 1;
    }
    proof {
        assert(items@.map_values(|item: String| item@) =~= sorted@.map_values(
            |value: u32| decimal(value as nat),
        ));
    }
    join_listing(&items)
}

/// Tells whether each of the cells can be named.
pub fn can_name_all(cells: &Vec<Cell>) -> (yes: bool)
    ensures
        yes == all_nameable(cells@),
{
    let mut done: usize = 0;
    while done < cells.len()
        invariant
            done <= cells.len(),
            forall|i: int| 0 <= i < done ==> (#[trigger] cells@[i]).is_nameable(),
        decreases cells.len() - done,
    {
        if !cells[done].can_name() {
            return false;
        }
        done += 1;
    }
    true
}

/// Writes the names of the cells out as a list, in the order given.
pub fn cells_text(cells: &Vec<Cell>) -> (text: String)
    requires
        all_nameable(cells@),
    ensures
        text@ == cells_listing(cells@),
{
    let mut items: Vec<String> = Vec::new();
    let mut done: usize = 0;
    while done < cells.len()
        invariant
            done <= cells.len(),
            all_nameable(cells@),
            items@.len() == done,
            forall|i: int| 0 <= i < done ==> (#[trigger] items@[i])@ == cell_name(cells@[i]),
        decreases cells.len() - done,
    {
        items.push(cell_label(cells[done]));
        done += 1;
    }
    proof {
        assert(items@.map_values(|item: String| item@) =~= cells@.map_values(
            |cell: Cell| cell_name(cell),
        ));
    }
    join_listing(&items)
}

} // verus!
