//! Properties that hold across calls of the views' operations, stated over
//! their abstract states.
use vstd::prelude::*;

use crate::cursor::CursorModel;
use crate::project::{names_of, DetailModel, ListModel};

verus! {

/// Delivering a summary sets the body to exactly its text, whatever the body
/// was before, and leaves the name alone; of two deliveries the later wins.
pub proof fn summary_overwrites_body(m: DetailModel, x: Seq<char>, y: Seq<char>)
    ensures
        m.summarized(x).body == x,
        m.summarized(x).name == m.name,
        m.summarized(x).summarized(y) == m.summarized(y),
{
}

/// After a motion the names and summaries are unchanged and at most one
/// entry is selected: in column 0 the entry whose 1-based index is the
/// cursor's row; in any other column, or on row 0 or a row past the last
/// entry, none.
pub proof fn selection_follows_cursor(m: ListModel, pos: (usize, usize))
    ensures
        m.moved(pos).entries.len() == m.entries.len(),
        forall|i: int| 0 <= i < m.entries.len() ==> {
            &&& (#[trigger] m.moved(pos).entries[i]).0 == m.entries[i].0
            &&& m.moved(pos).entries[i].1 == m.entries[i].1
            &&& m.moved(pos).entries[i].2 == (pos.0 == 0 && pos.1 == i + 1)
        },
        m.moved(pos).at_most_one_selected(),
        pos.0 != 0 || pos.1 == 0 || pos.1 > m.entries.len() ==> forall|i: int|
            0 <= i < m.entries.len() ==> !(#[trigger] m.moved(pos).entries[i]).2,
{
}

/// Populating the list with `pairs` leaves the cursor map with its first row
/// (if it had one) followed by exactly one row per pair, labelled with the
/// pair's name, in the pairs' order.
pub proof fn rows_follow_entries(map: CursorModel, pairs: Seq<(Seq<char>, Seq<char>)>)
    ensures
        ({
            let kept: int = if map.labels.len() == 0 { 0 } else { 1 };
            let after = map.cleared_after(1).with_rows(names_of(pairs));
            &&& after.labels.len() == kept + pairs.len()
            &&& kept == 1 ==> after.labels[0] == map.labels[0]
            &&& forall|i: int| 0 <= i < pairs.len() ==> after.labels[kept + i] == (#[trigger] pairs[i]).0
            &&& after.position() == map.position()
        }),
{
}

/// Populating the list a second time replaces what the first delivery left:
/// the entries are exactly the new pairs, none selected, and the cursor
/// map's rows after the first are those of the new names alone. (On a map
/// without any row the first name would be kept as its first row.)
pub proof fn repopulate_replaces(
    m: ListModel,
    map: CursorModel,
    first: Seq<(Seq<char>, Seq<char>)>,
    second: Seq<(Seq<char>, Seq<char>)>,
)
    requires
        map.labels.len() >= 1,
    ensures
        m.populated(first).populated(second) == m.populated(second),
        m.populated(second).entries.len() == second.len(),
        forall|i: int| 0 <= i < second.len() ==> {
            &&& (#[trigger] m.populated(second).entries[i]).0 == second[i].0
            &&& m.populated(second).entries[i].1 == second[i].1
            &&& !m.populated(second).entries[i].2
        },
        map.cleared_after(1).with_rows(names_of(first)).cleared_after(1).with_rows(names_of(second))
            == map.cleared_after(1).with_rows(names_of(second)),
{
    let once = map.cleared_after(1);
    let twice = once.with_rows(names_of(first)).cleared_after(1);
    assert(twice.labels =~= once.labels);
}

} // verus!
