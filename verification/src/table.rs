//! The table of configured providers: one entry for each id, in ascending order of the ids.
use crate::entry::{EntryView, ProviderEntry};
use crate::text::{self, comes_before, same};
use vstd::prelude::*;

verus! {

/// The id of an entry.
pub open spec fn id_of(entry: ProviderEntry) -> Seq<char> {
    entry.config.id.text@
}

/// Ids in ascending order, each once.
pub open spec fn sorted(entries: Seq<ProviderEntry>) -> bool {
    forall|i: int, j: int|
        0 <= i < j < entries.len() ==> text::precedes(
            id_of(#[trigger] entries[i]),
            id_of(#[trigger] entries[j]),
        )
}

/// The entry of an id.
pub open spec fn entry_of(entries: Seq<ProviderEntry>, id: Seq<char>) -> Option<EntryView>
    decreases entries.len(),
{
    if entries.len() == 0 {
        None
    } else if id_of(entries.last()) == id {
        Some(entries.last()@)
    } else {
        entry_of(entries.drop_last(), id)
    }
}

/// The entries without those of an id.
pub open spec fn without(entries: Seq<ProviderEntry>, id: Seq<char>) -> Seq<ProviderEntry>
    decreases entries.len(),
{
    if entries.len() == 0 {
        entries
    } else if id_of(entries.last()) == id {
        without(entries.drop_last(), id)
    } else {
        without(entries.drop_last(), id).push(entries.last())
    }
}

/// An entry that stands in the table is the entry of its id.
pub proof fn entry_found(entries: Seq<ProviderEntry>, at: int)
    requires
        sorted(entries),
        0 <= at < entries.len(),
    ensures
        entry_of(entries, id_of(entries[at])) == Some(entries[at]@),
    decreases entries.len(),
{
    if at < entries.len() - 1 {
        text::order_is_total(id_of(entries[at]), id_of(entries.last()));
        assert(text::precedes(id_of(entries[at]), id_of(entries[entries.len() - 1])));
        entry_found(entries.drop_last(), at);
    }
}

/// An id that no entry has has no entry.
pub proof fn entry_absent(entries: Seq<ProviderEntry>, id: Seq<char>)
    requires
        forall|i: int| 0 <= i < entries.len() ==> id_of(#[trigger] entries[i]) != id,
    ensures
        entry_of(entries, id) is None,
    decreases entries.len(),
{
    if entries.len() > 0 {
        assert(id_of(entries[entries.len() - 1]) != id);
        entry_absent(entries.drop_last(), id);
    }
}

/// An id that has an entry stands in the table.
pub proof fn entry_position(entries: Seq<ProviderEntry>, id: Seq<char>) -> (at: int)
    requires
        entry_of(entries, id) is Some,
    ensures
        0 <= at < entries.len(),
        id_of(entries[at]) == id,
        entry_of(entries, id) == Some(entries[at]@),
    decreases entries.len(),
{
    if id_of(entries.last()) == id {
        entries.len() - 1
    } else {
        entry_position(entries.drop_last(), id)
    }
}

/// Taking an id out changes nothing for the others.
pub proof fn entry_of_without(entries: Seq<ProviderEntry>, id: Seq<char>, other: Seq<char>)
    ensures
        entry_of(without(entries, id), other) == if other == id {
            None
        } else {
            entry_of(entries, other)
        },
    decreases entries.len(),
{
    if entries.len() > 0 {
        entry_of_without(entries.drop_last(), id, other);
        if id_of(entries.last()) != id {
            let rest = without(entries.drop_last(), id);
            assert(rest.push(entries.last()).drop_last() =~= rest);
        }
    }
}

/// Taking out an id that no entry has leaves the table as it is.
pub proof fn without_absent(entries: Seq<ProviderEntry>, id: Seq<char>)
    requires
        forall|i: int| 0 <= i < entries.len() ==> id_of(#[trigger] entries[i]) != id,
    ensures
        without(entries, id) == entries,
    decreases entries.len(),
{
    if entries.len() > 0 {
        assert(id_of(entries[entries.len() - 1]) != id);
        without_absent(entries.drop_last(), id);
        assert(entries.drop_last().push(entries.last()) =~= entries);
    }
}

/// Taking out the id of an entry takes out that entry.
pub proof fn without_present(entries: Seq<ProviderEntry>, at: int)
    requires
        sorted(entries),
        0 <= at < entries.len(),
    ensures
        without(entries, id_of(entries[at])) == entries.remove(at),
    decreases entries.len(),
{
    let id = id_of(entries[at]);
    if at == entries.len() - 1 {
        assert forall|i: int| 0 <= i < entries.drop_last().len() implies id_of(
            #[trigger] entries.drop_last()[i],
        ) != id by {
            text::order_is_total(id_of(entries[i]), id_of(entries[at]));
            assert(text::precedes(id_of(entries[i]), id_of(entries[at])));
        }
        without_absent(entries.drop_last(), id);
        assert(entries.remove(at) =~= entries.drop_last());
    } else {
        text::order_is_total(id, id_of(entries.last()));
        assert(text::precedes(id_of(entries[at]), id_of(entries[entries.len() - 1])));
        without_present(entries.drop_last(), at);
        assert(entries.drop_last().remove(at).push(entries.last()) =~= entries.remove(at));
    }
}

/// Taking an id out keeps the order.
pub proof fn without_sorted(entries: Seq<ProviderEntry>, id: Seq<char>)
    requires
        sorted(entries),
    ensures
        sorted(without(entries, id)),
{
    if entry_of(entries, id) is Some {
        let at = entry_position(entries, id);
        without_present(entries, at);
    } else {
        assert forall|i: int| 0 <= i < entries.len() implies id_of(#[trigger] entries[i]) != id by {
            entry_found(entries, i);
        }
        without_absent(entries, id);
    }
}

/// Returns where the entry of an id stands.
pub fn find(entries: &Vec<ProviderEntry>, id: &str) -> (r: Option<usize>)
    requires
        sorted(entries@),
    ensures
        match r {
            Some(at) => at < entries@.len() && id_of(entries@[at as int]) == id@ && entry_of(
                entries@,
                id@,
            ) == Some(entries@[at as int]@),
            None => entry_of(entries@, id@) is None,
        },
        r is None ==> forall|i: int| 0 <= i < entries@.len() ==> id_of(#[trigger] entries@[i]) != id@,
{
    for i in 0..entries.len()
        invariant
            sorted(entries@),
            forall|j: int| 0 <= j < i ==> id_of(#[trigger] entries@[j]) != id@,
    {
        if same(entries[i].config.id.text.as_str(), id) {
            proof {
                entry_found(entries@, i as int);
            }
            return Some(i);
        }
    }
    proof {
        entry_absent(entries@, id@);
    }
    None
}

/// Takes the entry of an id out of the table.
pub fn take(entries: &mut Vec<ProviderEntry>, id: &str) -> (r: Option<ProviderEntry>)
    requires
        sorted(old(entries)@),
    ensures
        sorted(final(entries)@),
        final(entries)@ == without(old(entries)@, id@),
        match r {
            Some(found) => entry_of(old(entries)@, id@) == Some(found@) && id_of(found) == id@
                && old(entries)@.len() == final(entries)@.len() + 1,
            None => entry_of(old(entries)@, id@) is None && old(entries)@ == final(entries)@,
        },
{
    match find(entries, id) {
        Some(at) => {
            proof {
                without_present(entries@, at as int);
                without_sorted(entries@, id@);
            }
            Some(entries.remove(at))
        },
        None => {
            proof {
                without_absent(entries@, id@);
            }
            None
        },
    }
}

proof fn inserted_entries(entries: Seq<ProviderEntry>, at: int, entry: ProviderEntry)
    requires
        sorted(entries),
        0 <= at <= entries.len(),
        forall|i: int| 0 <= i < at ==> text::precedes(id_of(#[trigger] entries[i]), id_of(entry)),
        forall|i: int|
            at <= i < entries.len() ==> text::precedes(id_of(entry), id_of(#[trigger] entries[i])),
    ensures
        sorted(entries.insert(at, entry)),
        forall|id: Seq<char>| #[trigger]
            entry_of(entries.insert(at, entry), id) == if id == id_of(entry) {
                Some(entry@)
            } else {
                entry_of(entries, id)
            },
{
    let after = entries.insert(at, entry);
    assert forall|i: int, j: int| 0 <= i < j < after.len() implies text::precedes(
        id_of(#[trigger] after[i]),
        id_of(#[trigger] after[j]),
    ) by {
        if i < at && j == at {
            assert(after[i] == entries[i]);
        } else if i == at && j > at {
            assert(after[j] == entries[j - 1]);
        } else if j < at {
            assert(after[i] == entries[i] && after[j] == entries[j]);
        } else if i > at {
            assert(after[i] == entries[i - 1] && after[j] == entries[j - 1]);
        } else {
            assert(after[i] == entries[i] && after[j] == entries[j - 1]);
        }
    }
    assert forall|id: Seq<char>| #[trigger] entry_of(after, id) == if id == id_of(entry) {
        Some(entry@)
    } else {
        entry_of(entries, id)
    } by {
        assert(after[at] == entry);
        entry_found(after, at);
        without_present(after, at);
        assert(after.remove(at) =~= entries);
        entry_of_without(after, id_of(entry), id);
    }
}

/// Puts an entry into the table, in place of one of the same id.
pub fn place(entries: &mut Vec<ProviderEntry>, entry: ProviderEntry)
    requires
        sorted(old(entries)@),
    ensures
        sorted(final(entries)@),
        forall|id: Seq<char>| #[trigger]
            entry_of(final(entries)@, id) == if id == id_of(entry) {
                Some(entry@)
            } else {
                entry_of(old(entries)@, id)
            },
        final(entries)@.len() == old(entries)@.len() + if entry_of(
            old(entries)@,
            id_of(entry),
        ) is Some {
            0int
        } else {
            1int
        },
{
    let ghost before = entries@;
    let ghost id = id_of(entry);
    let _replaced = take(entries, entry.config.id.text.as_str());
    let ghost rest = entries@;
    proof {
        assert forall|other: Seq<char>| #[trigger] entry_of(rest, other) == if other == id {
            None
        } else {
            entry_of(before, other)
        } by {
            entry_of_without(before, id, other);
        }
    }
    let mut at: usize = 0;
    while at < entries.len() && comes_before(
        entries[at].config.id.text.as_str(),
        entry.config.id.text.as_str(),
    )
        invariant
            at <= entries@.len(),
            entries@ == rest,
            forall|i: int| 0 <= i < at ==> text::precedes(id_of(#[trigger] rest[i]), id_of(entry)),
        decreases entries@.len() - at,
    {
        at = at + 1;
    }
    proof {
        assert forall|i: int| at <= i < rest.len() implies text::precedes(
            id,
            id_of(#[trigger] rest[i]),
        ) by {
            entry_found(rest, i);
            entry_of_without(before, id, id);
            text::order_is_total(id_of(rest[at as int]), id);
            entry_found(rest, at as int);
            if i > at {
                text::order_is_transitive(id, id_of(rest[at as int]), id_of(rest[i]));
            }
        }
        inserted_entries(rest, at as int, entry);
    }
    entries.insert(at, entry);
}

} // verus!
