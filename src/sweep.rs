//! The expiry sweep: once a day, every suspension that ends that day is
//! resolved by deleting the account where it was suspended.
use vstd::prelude::*;
use crate::platform::{all_marker, marker_target, marker_target_spec};
use crate::propagate::{
    append_plan, calls_view, plan_spec, service_calls, strings_view, Call, CallView, Command,
    EndpointView,
};
use crate::report::Suspension;

verus! {

/// Seconds in a day.
pub const SECONDS_PER_DAY: u64 = 86400;

/// The day (counted from the epoch) that contains instant `now` (in seconds).
pub fn day_of(now: u64) -> (r: u64)
    ensures
        r == now / SECONDS_PER_DAY,
        r * SECONDS_PER_DAY <= now < (r + 1) * SECONDS_PER_DAY,
{
    now / SECONDS_PER_DAY
}

/// Seconds from instant `now` to the next midnight (UTC); a full day when
/// `now` is itself a midnight.
pub fn seconds_until_next_day(now: u64) -> (r: u64)
    ensures
        1 <= r <= SECONDS_PER_DAY,
        r == SECONDS_PER_DAY - now % SECONDS_PER_DAY,
        (now + r) % (SECONDS_PER_DAY as int) == 0,
        (now + r) / (SECONDS_PER_DAY as int) == now / SECONDS_PER_DAY + 1,
{
    SECONDS_PER_DAY - now % SECONDS_PER_DAY
}

/// The calls that resolve one suspension: a deletion where it applies.
pub open spec fn resolution_spec(s: Suspension, services: Seq<Seq<char>>) -> Seq<CallView> {
    plan_spec(s.subject@, marker_target_spec(s.platform@), services, Command::Delete)
}

/// The calls of a sweep on `today`, in the order of the records: those of
/// each suspension that ends on `today`, none for the others.
pub open spec fn sweep_spec(records: Seq<Suspension>, today: u64, services: Seq<Seq<char>>) -> Seq<
    CallView,
>
    decreases records.len(),
{
    if records.len() == 0 {
        Seq::empty()
    } else {
        let last = records.last();
        sweep_spec(records.drop_last(), today, services) + if last.expire_day == today {
            resolution_spec(last, services)
        } else {
            Seq::empty()
        }
    }
}

/// The calls that a sweep on `today` makes for `records`.
pub fn sweep_calls(records: &Vec<Suspension>, today: u64, services: &Vec<String>) -> (r: Vec<Call>)
    ensures
        calls_view(r@) == sweep_spec(records@, today, strings_view(services@)),
{
    let mut out: Vec<Call> = Vec::new();
    let mut i: usize = 0;
    assert(records@.subrange(0, 0) =~= Seq::<Suspension>::empty());
    assert(calls_view(out@) =~= Seq::<CallView>::empty());
    while i < records.len()
        invariant
            i <= records@.len(),
            calls_view(out@) == sweep_spec(
                records@.subrange(0, i as int),
                today,
                strings_view(services@),
            ),
        decreases records@.len() - i,
    {
        let record = &records[i];
        assert(records@.subrange(0, i + 1).drop_last() =~= records@.subrange(0, i as int));
        assert(records@.subrange(0, i + 1).last() == records@[i as int]);
        if record.expire_day == today {
            let target = marker_target(&record.platform);
            append_plan(&mut out, &record.subject, &target, services, Command::Delete);
        } else {
            assert(sweep_spec(records@.subrange(0, i as int), today, strings_view(services@))
                + Seq::<CallView>::empty() =~= sweep_spec(
                records@.subrange(0, i as int),
                today,
                strings_view(services@),
            ));
        }
        i = i + 1;
    }
    assert(records@.subrange(0, i as int) =~= records@);
    out
}

/// A platform-wide suspension that ends today is resolved by exactly one
/// deletion at the identity service followed by one deletion at each
/// configured service, in order; one scoped to a platform, by exactly one
/// deletion on that platform.
pub proof fn lemma_sweep_one(s: Suspension, today: u64, services: Seq<Seq<char>>)
    requires
        s.expire_day == today,
    ensures
        s.platform@ == all_marker() ==> sweep_spec(seq![s], today, services) == seq![
            CallView {
                endpoint: EndpointView::Identity,
                command: Command::Delete,
                subject: s.subject@,
            },
        ] + service_calls(services, Command::Delete, s.subject@),
        s.platform@ == all_marker() ==> sweep_spec(seq![s], today, services).len() == 1
            + services.len(),
        s.platform@ != all_marker() ==> sweep_spec(seq![s], today, services) == seq![
            CallView {
                endpoint: EndpointView::Platform(s.platform@),
                command: Command::Delete,
                subject: s.subject@,
            },
        ],
{
    assert(seq![s].drop_last() =~= Seq::<Suspension>::empty());
    assert(seq![s].last() == s);
    assert(sweep_spec(Seq::<Suspension>::empty(), today, services) == Seq::<CallView>::empty());
    let r = sweep_spec(seq![s], today, services);
    assert(r =~= Seq::<CallView>::empty() + resolution_spec(s, services));
    assert(r =~= resolution_spec(s, services));
}

/// A suspension that does not end today leads to no call.
pub proof fn lemma_sweep_not_due(s: Suspension, today: u64, services: Seq<Seq<char>>)
    requires
        s.expire_day != today,
    ensures
        sweep_spec(seq![s], today, services) == Seq::<CallView>::empty(),
{
    assert(seq![s].drop_last() =~= Seq::<Suspension>::empty());
    assert(seq![s].last() == s);
    assert(sweep_spec(Seq::<Suspension>::empty(), today, services) == Seq::<CallView>::empty());
    assert(sweep_spec(seq![s], today, services) =~= Seq::<CallView>::empty());
}

} // verus!
