use vstd::prelude::*;
use vstd::seq_lib::{lemma_multiset_commutative, to_multiset_build};

verus! {

/// One header of a collection: a name and a value.
#[derive(Clone, Debug)]
pub struct Header {
    pub name: String,
    pub value: String,
}

/// A header as plain text: its name, then its value.
pub type Entry = (Seq<char>, Seq<char>);

impl View for Header {
    type V = Entry;

    open spec fn view(&self) -> Entry {
        (self.name@, self.value@)
    }
}

/// The headers of a collection as plain text, in the collection's order.
pub open spec fn entries(headers: Seq<Header>) -> Seq<Entry> {
    headers.map_values(|header: Header| header@)
}

/// The names of an order as plain text.
pub open spec fn names(order: Seq<String>) -> Seq<Seq<char>> {
    order.map_values(|name: String| name@)
}

/// The entries that bear `name` (where `wanted`) or do not bear it (where
/// not), in the order in which `entries` holds them.
pub open spec fn selected(entries: Seq<Entry>, name: Seq<char>, wanted: bool) -> Seq<Entry>
    decreases entries.len(),
{
    if entries.len() == 0 {
        Seq::empty()
    } else {
        let before = selected(entries.drop_last(), name, wanted);
        if (entries.last().0 == name) == wanted {
            before.push(entries.last())
        } else {
            before
        }
    }
}

/// The order in which a collection is written out under a name order: for
/// each name of the order in turn the entries that bear it, then the entries
/// that no name of the order claimed, these as the collection held them.
pub open spec fn ordered(entries: Seq<Entry>, order: Seq<Seq<char>>) -> Seq<Entry>
    decreases order.len(),
{
    if order.len() == 0 {
        entries
    } else {
        selected(entries, order[0], true) + ordered(
            selected(entries, order[0], false),
            order.drop_first(),
        )
    }
}

/// A header with the same name and value.
fn copy_of(header: &Header) -> (copy: Header)
    ensures
        copy@ == header@,
{
    Header { name: header.name.clone(), value: header.value.clone() }
}

/// Splits `headers` into those that bear `name`, which go to the end of
/// `sorted`, and the rest, which are handed back.
fn claim(headers: &Vec<Header>, name: &String, sorted: &mut Vec<Header>) -> (rest: Vec<Header>)
    ensures
        entries(final(sorted)@) == entries(old(sorted)@) + selected(entries(headers@), name@, true),
        entries(rest@) == selected(entries(headers@), name@, false),
{
    let mut rest: Vec<Header> = Vec::new();
    let mut i: usize = 0;
    while i < headers.len()
        invariant
            i <= headers@.len(),
            entries(sorted@) == entries(old(sorted)@) + selected(
                entries(headers@).take(i as int),
                name@,
                true,
            ),
            entries(rest@) == selected(entries(headers@).take(i as int), name@, false),
        decreases headers@.len() - i,
    {
        let ghost upto = entries(headers@).take(i + 1);
        assert(upto.drop_last() =~= entries(headers@).take(i as int));
        assert(upto.last() == headers@[i as int]@);
        let copy = copy_of(&headers[i]);
        if headers[i].name == *name {
            let ghost before = sorted@;
            sorted.push(copy);
            assert(entries(sorted@) =~= entries(before).push(copy@));
        } else {
            let ghost before = rest@;
            rest.push(copy);
            assert(entries(rest@) =~= entries(before).push(copy@));
        }
        i += 1;
    }
    assert(entries(headers@).take(i as int) =~= entries(headers@));
    rest
}

/// Puts a header collection into the order in which it is written out.
///
/// The headers that `order` names come first, name by name in the order's
/// sequence; a name that no header bears is passed over. The headers that the
/// order does not name follow, in the order in which the collection held them.
pub fn sort_headers(headers: &Vec<Header>, order: &Vec<String>) -> (sorted: Vec<Header>)
    ensures
        entries(sorted@) == ordered(entries(headers@), names(order@)),
{
    let mut sorted: Vec<Header> = Vec::new();
    let mut rest: Vec<Header> = copy_all(headers);
    let mut k: usize = 0;
    assert(names(order@).skip(0) =~= names(order@));
    assert(entries(sorted@) + ordered(entries(rest@), names(order@)) =~= ordered(
        entries(headers@),
        names(order@),
    ));
    while k < order.len()
        invariant
            k <= order@.len(),
            entries(sorted@) + ordered(entries(rest@), names(order@).skip(k as int)) == ordered(
                entries(headers@),
                names(order@),
            ),
        decreases order@.len() - k,
    {
        let ghost pending = names(order@).skip(k as int);
        let ghost before = entries(sorted@);
        let ghost open = entries(rest@);
        assert(pending[0] == order@[k as int]@);
        assert(pending.drop_first() =~= names(order@).skip(k + 1));
        rest = claim(&rest, &order[k], &mut sorted);
        assert(entries(sorted@) + ordered(entries(rest@), names(order@).skip(k + 1)) =~= before
            + ordered(open, pending));
        k += 1;
    }
    let mut i: usize = 0;
    let ghost claimed = entries(sorted@);
    while i < rest.len()
        invariant
            i <= rest@.len(),
            entries(sorted@) == claimed + entries(rest@).take(i as int),
        decreases rest@.len() - i,
    {
        let ghost before = sorted@;
        let copy = copy_of(&rest[i]);
        sorted.push(copy);
        assert(entries(sorted@) =~= entries(before).push(copy@));
        assert(entries(rest@).take(i + 1) =~= entries(rest@).take(i as int).push(rest@[i as int]@));
        i += 1;
    }
    assert(entries(rest@).take(i as int) =~= entries(rest@));
    assert(names(order@).skip(k as int).len() == 0);
    sorted
}

/// The same headers in the same order.
fn copy_all(headers: &Vec<Header>) -> (all: Vec<Header>)
    ensures
        entries(all@) == entries(headers@),
{
    let mut all: Vec<Header> = Vec::new();
    let mut i: usize = 0;
    while i < headers.len()
        invariant
            i <= headers@.len(),
            entries(all@) == entries(headers@).take(i as int),
        decreases headers@.len() - i,
    {
        let ghost before = all@;
        let copy = copy_of(&headers[i]);
        all.push(copy);
        assert(entries(all@) =~= entries(before).push(copy@));
        assert(entries(headers@).take(i + 1) =~= entries(headers@).take(i as int).push(
            headers@[i as int]@,
        ));
        i += 1;
    }
    assert(entries(headers@).take(i as int) =~= entries(headers@));
    all
}

/// Every entry of a selection passes the selection's test.
proof fn selection_passes_test(entries: Seq<Entry>, name: Seq<char>, wanted: bool)
    ensures
        forall|i: int|
            0 <= i < selected(entries, name, wanted).len() ==> ((#[trigger] selected(
                entries,
                name,
                wanted,
            )[i]).0 == name) == wanted,
    decreases entries.len(),
{
    if entries.len() > 0 {
        selection_passes_test(entries.drop_last(), name, wanted);
        let whole = selected(entries, name, wanted);
        let before = selected(entries.drop_last(), name, wanted);
        assert forall|i: int| 0 <= i < whole.len() implies ((#[trigger] whole[i]).0 == name)
            == wanted by {
            if i < before.len() {
                assert(whole[i] == before[i]);
            }
        }
    }
}

/// Where every entry passes the test, the selection is the whole, and the
/// opposite selection is empty.
proof fn selection_of_all(entries: Seq<Entry>, name: Seq<char>, wanted: bool)
    requires
        forall|i: int| 0 <= i < entries.len() ==> (#[trigger] entries[i].0 == name) == wanted,
    ensures
        selected(entries, name, wanted) == entries,
        selected(entries, name, !wanted) == Seq::<Entry>::empty(),
    decreases entries.len(),
{
    if entries.len() > 0 {
        selection_of_all(entries.drop_last(), name, wanted);
        assert(entries.drop_last().push(entries.last()) =~= entries);
    }
}

/// Selecting from two lists written one after the other selects from each.
proof fn selection_of_both(first: Seq<Entry>, second: Seq<Entry>, name: Seq<char>, wanted: bool)
    ensures
        selected(first + second, name, wanted) == selected(first, name, wanted) + selected(
            second,
            name,
            wanted,
        ),
    decreases second.len(),
{
    if second.len() == 0 {
        assert(first + second =~= first);
        assert(selected(first, name, wanted) + selected(second, name, wanted) =~= selected(
            first,
            name,
            wanted,
        ));
    } else {
        selection_of_both(first, second.drop_last(), name, wanted);
        assert((first + second).drop_last() =~= first + second.drop_last());
        assert((first + second).last() == second.last());
        let before = selected(first, name, wanted) + selected(second.drop_last(), name, wanted);
        assert(before.push(second.last()) =~= selected(first, name, wanted) + selected(
            second.drop_last(),
            name,
            wanted,
        ).push(second.last()));
    }
}

/// The entries that bear a name and those that do not are together the
/// entries, each as often as before.
proof fn selection_loses_nothing(entries: Seq<Entry>, name: Seq<char>)
    ensures
        selected(entries, name, true).to_multiset().add(
            selected(entries, name, false).to_multiset(),
        ) == entries.to_multiset(),
    decreases entries.len(),
{
    broadcast use vstd::multiset::group_multiset_axioms;

    if entries.len() == 0 {
        entries.to_multiset_ensures();
        assert(entries =~= Seq::<Entry>::empty());
        assert(selected(entries, name, true).to_multiset().add(
            selected(entries, name, false).to_multiset(),
        ) =~= entries.to_multiset());
    } else {
        let front = entries.drop_last();
        selection_loses_nothing(front, name);
        assert(front.push(entries.last()) =~= entries);
        to_multiset_build(front, entries.last());
        to_multiset_build(selected(front, name, true), entries.last());
        to_multiset_build(selected(front, name, false), entries.last());
        assert(selected(entries, name, true).to_multiset().add(
            selected(entries, name, false).to_multiset(),
        ) =~= entries.to_multiset());
    }
}

/// Ordering only rearranges: the result holds every header of the
/// collection, each as often as the collection does, and no other.
pub proof fn ordering_keeps_every_header(entries: Seq<Entry>, order: Seq<Seq<char>>)
    ensures
        ordered(entries, order).to_multiset() == entries.to_multiset(),
        ordered(entries, order).len() == entries.len(),
    decreases order.len(),
{
    if order.len() > 0 {
        let claimed = selected(entries, order[0], true);
        let open = selected(entries, order[0], false);
        ordering_keeps_every_header(open, order.drop_first());
        selection_loses_nothing(entries, order[0]);
        lemma_multiset_commutative(claimed, ordered(open, order.drop_first()));
    }
    ordered(entries, order).to_multiset_ensures();
    entries.to_multiset_ensures();
}

/// The name that every entry of `entries` bears or not is borne alike by
/// the entries of the result.
proof fn ordering_keeps_names_out(entries: Seq<Entry>, order: Seq<Seq<char>>, name: Seq<char>)
    requires
        forall|i: int| 0 <= i < entries.len() ==> (#[trigger] entries[i]).0 != name,
    ensures
        forall|i: int|
            0 <= i < ordered(entries, order).len() ==> (#[trigger] ordered(entries, order)[i]).0
                != name,
{
    let result = ordered(entries, order);
    ordering_keeps_every_header(entries, order);
    result.to_multiset_ensures();
    entries.to_multiset_ensures();
    assert forall|i: int| 0 <= i < result.len() implies (#[trigger] result[i]).0 != name by {
        assert(result.contains(result[i]));
        assert(entries.to_multiset().count(result[i]) > 0);
        assert(entries.contains(result[i]));
        let j = choose|j: int| 0 <= j < entries.len() && entries[j] == result[i];
        assert(entries[j].0 != name);
    }
}

/// A name of the order that no header bears is passed over: the result is
/// the same as under the order without it.
pub proof fn absent_name_is_passed_over(entries: Seq<Entry>, order: Seq<Seq<char>>)
    requires
        order.len() > 0,
        forall|i: int| 0 <= i < entries.len() ==> (#[trigger] entries[i]).0 != order[0],
    ensures
        ordered(entries, order) == ordered(entries, order.drop_first()),
{
    selection_of_all(entries, order[0], false);
    assert(Seq::<Entry>::empty() + ordered(entries, order.drop_first()) =~= ordered(
        entries,
        order.drop_first(),
    ));
}

/// Under an order that names nothing the collection stays as it is.
pub proof fn empty_order_changes_nothing(entries: Seq<Entry>)
    ensures
        ordered(entries, Seq::empty()) == entries,
{
}

/// A collection that is in order already stays as it is: ordering a second
/// time under the same order changes nothing.
pub proof fn ordering_twice_changes_nothing(entries: Seq<Entry>, order: Seq<Seq<char>>)
    ensures
        ordered(ordered(entries, order), order) == ordered(entries, order),
    decreases order.len(),
{
    if order.len() > 0 {
        let name = order[0];
        let later = order.drop_first();
        let claimed = selected(entries, name, true);
        let open = selected(entries, name, false);
        let tail = ordered(open, later);
        ordering_twice_changes_nothing(open, later);
        selection_passes_test(entries, name, true);
        selection_passes_test(entries, name, false);
        ordering_keeps_names_out(open, later, name);
        selection_of_all(claimed, name, true);
        selection_of_all(tail, name, false);
        selection_of_both(claimed, tail, name, true);
        selection_of_both(claimed, tail, name, false);
        assert(selected(claimed + tail, name, true) =~= claimed);
        assert(selected(claimed + tail, name, false) =~= tail);
    }
}

} // verus!
