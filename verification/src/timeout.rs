//! The timeout policy: how long a method may run before the caller stops
//! waiting for it.

use vstd::prelude::*;
use crate::text::starts_with;

verus! {

/// The budget, in seconds, of a method that is not known to run long.
pub const DEFAULT_TIMEOUT_SECS: u64 = 30;

/// The budget, in seconds, of a method that is known to run long.
pub const LONG_RUNNING_TIMEOUT_SECS: u64 = 120;

/// A method runs long when its name begins with one of these prefixes:
/// adding or rescanning a location, creating a library, running a job, or a
/// full synchronization.
pub open spec fn is_long_running(method: Seq<char>) -> bool {
    ||| "action:locations.add"@.is_prefix_of(method)
    ||| "action:locations.rescan"@.is_prefix_of(method)
    ||| "action:libraries.create"@.is_prefix_of(method)
    ||| "action:jobs.run"@.is_prefix_of(method)
    ||| "action:sync.full_sync"@.is_prefix_of(method)
}

/// The budget of a method, in seconds.
pub open spec fn timeout_secs(method: Seq<char>) -> u64 {
    if is_long_running(method) {
        LONG_RUNNING_TIMEOUT_SECS
    } else {
        DEFAULT_TIMEOUT_SECS
    }
}

/// Whether the method is known to run long.
pub fn is_long_running_method(method: &str) -> (long: bool)
    ensures
        long == is_long_running(method@),
{
    starts_with(method, "action:locations.add") || starts_with(method, "action:locations.rescan")
        || starts_with(method, "action:libraries.create") || starts_with(method, "action:jobs.run")
        || starts_with(method, "action:sync.full_sync")
}

/// The budget of the method, in seconds.
pub fn get_timeout_for_method(method: &str) -> (secs: u64)
    ensures
        secs == timeout_secs(method@),
        secs == 30 || secs == 120,
{
    if is_long_running_method(method) {
        LONG_RUNNING_TIMEOUT_SECS
    } else {
        DEFAULT_TIMEOUT_SECS
    }
}

/// A name that extends a long-running name is long-running too: the policy
/// goes by prefix.
pub proof fn lemma_long_running_extends(method: Seq<char>, longer: Seq<char>)
    requires
        is_long_running(method),
        method.is_prefix_of(longer),
    ensures
        is_long_running(longer),
        timeout_secs(longer) == 120,
{
    assert forall|p: Seq<char>| p.is_prefix_of(method) implies p.is_prefix_of(longer) by {
        assert(p =~= longer.subrange(0, p.len() as int));
    }
}

/// Only actions run long: a name outside the `action:` namespace has the
/// default budget.
pub proof fn lemma_only_actions_run_long(method: Seq<char>)
    requires
        !"action:"@.is_prefix_of(method),
    ensures
        !is_long_running(method),
        timeout_secs(method) == 30,
{
    reveal_strlit("action:");
    reveal_strlit("action:locations.add");
    reveal_strlit("action:locations.rescan");
    reveal_strlit("action:libraries.create");
    reveal_strlit("action:jobs.run");
    reveal_strlit("action:sync.full_sync");
    let a = "action:"@;
    assert forall|p: Seq<char>| a.is_prefix_of(p) && p.is_prefix_of(method) implies a.is_prefix_of(
        method,
    ) by {
        assert(a =~= method.subrange(0, a.len() as int));
    }
    assert(a.is_prefix_of("action:locations.add"@));
    assert(a.is_prefix_of("action:locations.rescan"@));
    assert(a.is_prefix_of("action:libraries.create"@));
    assert(a.is_prefix_of("action:jobs.run"@));
    assert(a.is_prefix_of("action:sync.full_sync"@));
}

} // verus!
