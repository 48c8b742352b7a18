use vstd::prelude::*;
use crate::dispatch::fallback_accepts;
use crate::dispatch::fallback_count_after;
use crate::dispatch::is_execute_tagged;
use crate::hook::count_after;
use crate::hook::count_after_all;
use crate::hook::hook_ok;
use crate::metas::ExtraAccount;
use crate::metas::untouched;

verus! {

/// Each transfer the hook lets proceed adds exactly one to the counter:
/// a run of invocations whose token accounts are all marked as in flight
/// ends with the count raised by the number of invocations, so a counter
/// started at zero reads the number of valid transfers observed.
pub proof fn law_counter_counts_valid_transfers(
    count: u64,
    events: Seq<(Option<bool>, Option<bool>)>,
)
    requires
        forall|i: int| 0 <= i < events.len() ==> #[trigger] hook_ok(events[i].0, events[i].1),
        count + events.len() <= u64::MAX,
    ensures
        count_after_all(count, events) == count + events.len(),
    decreases events.len(),
{
    if events.len() > 0 {
        assert(hook_ok(events[0].0, events[0].1));
        let rest = events.drop_first();
        assert forall|i: int| 0 <= i < rest.len() implies #[trigger] hook_ok(
            rest[i].0,
            rest[i].1,
        ) by {
            assert(rest[i] == events[i + 1]);
        }
        law_counter_counts_valid_transfers((count + 1) as u64, rest);
    }
}

/// A rejected invocation leaves the counter exactly where it was: only a
/// transfer in flight on both sides is counted.
pub proof fn law_rejected_transfer_not_counted(
    count: u64,
    source_flag: Option<bool>,
    destination_flag: Option<bool>,
)
    requires
        !hook_ok(source_flag, destination_flag),
    ensures
        count_after(count, source_flag, destination_flag) == count,
{
}

/// A successful setup leaves the derived account holding data, and the
/// setup allocates only into an account holding none: run twice for the
/// same mint identity, the second run must fail.
pub proof fn law_setup_runs_once(after: ExtraAccount)
    requires
        after.data@.len() != 0,
    ensures
        !untouched(after),
{
}

/// The published execute tag routes the dispatcher to the hook: under the
/// tag and a full amount, the dispatcher accepts exactly when the hook
/// accepts and moves the counter exactly as a direct hook call would.
pub proof fn law_execute_tag_routes_to_hook(
    count: u64,
    source_flag: Option<bool>,
    destination_flag: Option<bool>,
    ix_data: Seq<u8>,
)
    requires
        is_execute_tagged(ix_data),
        ix_data.len() >= 16,
    ensures
        fallback_count_after(count, source_flag, destination_flag, ix_data) == count_after(
            count,
            source_flag,
            destination_flag,
        ),
        fallback_accepts(source_flag, destination_flag, ix_data) == hook_ok(
            source_flag,
            destination_flag,
        ),
{
}

/// Leading bytes other than the published tag never reach the hook: the
/// call is rejected and the counter stands still.
pub proof fn law_unknown_tag_rejected(
    count: u64,
    source_flag: Option<bool>,
    destination_flag: Option<bool>,
    ix_data: Seq<u8>,
)
    requires
        !is_execute_tagged(ix_data),
    ensures
        fallback_count_after(count, source_flag, destination_flag, ix_data) == count,
        !fallback_accepts(source_flag, destination_flag, ix_data),
{
}

} // verus!
