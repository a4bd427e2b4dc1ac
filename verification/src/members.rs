//! Named values in order, and the one of a name.
use vstd::prelude::*;

verus! {

/// Where the first member of that name stands, or the number of members.
pub open spec fn position<V>(members: Seq<(Seq<char>, V)>, name: Seq<char>) -> nat
    decreases members.len(),
{
    if members.len() == 0 {
        0
    } else if members[0].0 == name {
        0
    } else {
        1 + position(members.skip(1), name)
    }
}

/// The value of the first member of that name.
pub open spec fn value_of<V>(members: Seq<(Seq<char>, V)>, name: Seq<char>) -> Option<V> {
    let at = position(members, name);
    if at < members.len() {
        Some(members[at as int].1)
    } else {
        None
    }
}

/// The position of a name is where it stands first.
pub proof fn position_is<V>(members: Seq<(Seq<char>, V)>, name: Seq<char>, at: int)
    requires
        0 <= at <= members.len(),
        forall|j: int| 0 <= j < at ==> (#[trigger] members[j]).0 != name,
        at < members.len() ==> members[at].0 == name,
    ensures
        position(members, name) == at,
    decreases members.len(),
{
    if at > 0 {
        assert(members[0].0 != name);
        let rest = members.skip(1);
        assert forall|j: int| 0 <= j < at - 1 implies (#[trigger] rest[j]).0 != name by {
            assert(rest[j] == members[j + 1]);
        }
        if at < members.len() {
            assert(rest[at - 1] == members[at]);
        }
        position_is(rest, name, at - 1);
    }
}

/// The value of a name is that of the first member of the name: a member that none of its name
/// stands before gives it, and where no member has the name there is none.
pub proof fn value_is_that_of_the_first<V>(members: Seq<(Seq<char>, V)>, name: Seq<char>)
    ensures
        forall|i: int|
            0 <= i < members.len() && (#[trigger] members[i]).0 == name && (forall|j: int|
                0 <= j < i ==> (#[trigger] members[j]).0 != name) ==> value_of(members, name)
                == Some(members[i].1),
        value_of(members, name) is None <==> (forall|i: int|
            0 <= i < members.len() ==> (#[trigger] members[i]).0 != name),
{
    assert forall|i: int|
        0 <= i < members.len() && (#[trigger] members[i]).0 == name && (forall|j: int|
            0 <= j < i ==> (#[trigger] members[j]).0 != name) implies value_of(members, name)
        == Some(members[i].1) by {
        position_is(members, name, i);
    }
    if forall|i: int| 0 <= i < members.len() ==> (#[trigger] members[i]).0 != name {
        position_is(members, name, members.len() as int);
    } else {
        let at = first_of_name(members, name);
        position_is(members, name, at);
    }
}

proof fn first_of_name<V>(members: Seq<(Seq<char>, V)>, name: Seq<char>) -> (at: int)
    requires
        exists|i: int| 0 <= i < members.len() && (#[trigger] members[i]).0 == name,
    ensures
        0 <= at < members.len(),
        members[at].0 == name,
        forall|j: int| 0 <= j < at ==> (#[trigger] members[j]).0 != name,
    decreases members.len(),
{
    if members[0].0 == name {
        0
    } else {
        let rest = members.skip(1);
        let i = choose|i: int| 0 <= i < members.len() && (#[trigger] members[i]).0 == name;
        assert(rest[i - 1].0 == name);
        let at = first_of_name(rest, name);
        assert(rest[at] == members[at + 1]);
        assert forall|j: int| 0 <= j < at + 1 implies (#[trigger] members[j]).0 != name by {
            if j > 0 {
                assert(rest[j - 1] == members[j]);
            }
        }
        at + 1
    }
}

} // verus!
