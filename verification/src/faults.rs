//! The first complaint of an ordered list of checks.
use vstd::prelude::*;

verus! {

/// What a check complains of, or nothing.
pub type Fault = Option<Seq<char>>;

/// The complaint of the first check in `from..to` that has one.
pub open spec fn first_fault(from: int, to: int, check: spec_fn(int) -> Fault) -> Fault
    decreases to - from,
{
    if from >= to {
        None
    } else if check(from) is Some {
        check(from)
    } else {
        first_fault(from + 1, to, check)
    }
}

/// The first complaint of two.
pub open spec fn or_else(first: Fault, second: Fault) -> Fault {
    if first is Some {
        first
    } else {
        second
    }
}

/// A result whose error text is exactly the fault, and which is `Ok` exactly where there is none.
pub open spec fn reports<T>(r: Result<T, String>, fault: Fault) -> bool {
    match r {
        Ok(_) => fault is None,
        Err(message) => fault == Some(message@),
    }
}

/// A complaint after a run of checks without one is the first.
pub proof fn first_fault_found(from: int, at: int, to: int, check: spec_fn(int) -> Fault)
    requires
        from <= at < to,
        forall|k: int| from <= k < at ==> (#[trigger] check(k)) is None,
        check(at) is Some,
    ensures
        first_fault(from, to, check) == check(at),
    decreases at - from,
{
    if from < at {
        first_fault_found(from + 1, at, to, check);
    }
}

/// There is no first complaint exactly where no check complains.
pub proof fn first_fault_none(from: int, to: int, check: spec_fn(int) -> Fault)
    ensures
        first_fault(from, to, check) is None <==> forall|k: int|
            from <= k < to ==> (#[trigger] check(k)) is None,
    decreases to - from,
{
    if from < to {
        first_fault_none(from + 1, to, check);
        if check(from) is None && first_fault(from + 1, to, check) is None {
            assert forall|k: int| from <= k < to implies (#[trigger] check(k)) is None by {}
        }
    }
}

/// The first complaint is that of some check.
pub proof fn first_fault_is_one(from: int, to: int, check: spec_fn(int) -> Fault) -> (at: int)
    requires
        first_fault(from, to, check) is Some,
    ensures
        from <= at < to,
        check(at) == first_fault(from, to, check),
    decreases to - from,
{
    if check(from) is Some {
        from
    } else {
        first_fault_is_one(from + 1, to, check)
    }
}

/// Checks that complain alike have the same first complaint.
pub proof fn same_checks_same_fault(
    from: int,
    to: int,
    check: spec_fn(int) -> Fault,
    other: spec_fn(int) -> Fault,
)
    requires
        forall|k: int| from <= k < to ==> (#[trigger] check(k)) == other(k),
    ensures
        first_fault(from, to, check) == first_fault(from, to, other),
    decreases to - from,
{
    if from < to {
        assert(check(from) == other(from));
        same_checks_same_fault(from + 1, to, check, other);
    }
}

} // verus!
