//! What holds of every registration, proved of [`crate::session::run`].

use vstd::prelude::*;
use crate::connection::{accepted_record, ConnectionDataView, ConnectionView};
use crate::endpoint::parsed_url;
use crate::register::{EventView, Phase, RefreshPolicy, RegistrationView};
use crate::resolve::resolve;
use crate::session::{play, run, Answers};
use crate::status::{OutcomeCode, RegistrationStatus};
use crate::store::{keyed, lookup, settle, upsert, Store};

verus! {

/// Every event takes an unfinished registration closer to its end, the machine
/// is finished exactly when it answers `Finish`, and the registration it
/// decides never changes under way.
pub proof fn every_step_advances(machine: RegistrationView, event: EventView)
    ensures
        machine.phase != Phase::Finished ==> machine.step(event).0.phase.rank()
            < machine.phase.rank(),
        machine.step(event).1 is Finish <==> machine.step(event).0.phase == Phase::Finished,
        machine.step(event).0.co_data == machine.co_data,
        machine.step(event).0.now == machine.now,
        machine.step(event).0.policy == machine.policy,
{
}

/// The status resolution, rule by rule: each status is resolved on exactly the
/// inputs that its rule names, and `InternalError` is never resolved.
pub proof fn resolution_by_rule(
    co_data: ConnectionDataView,
    uuid_valid: bool,
    endpoint_valid: bool,
    stored: Option<ConnectionView>,
)
    ensures
        ({
            let status = resolve(co_data, uuid_valid, endpoint_valid, stored);
            let valid = uuid_valid && endpoint_valid;
            &&& status == RegistrationStatus::InvalidUuid <==> !uuid_valid
            &&& status == RegistrationStatus::InvalidEndpoint <==> uuid_valid && !endpoint_valid
            &&& status == RegistrationStatus::New <==> valid && stored is None
            &&& status == RegistrationStatus::Forbidden <==> valid && stored is Some
                && stored->0.same_credentials(co_data) && stored->0.forbidden
            &&& status == RegistrationStatus::Running <==> valid && stored is Some
                && stored->0.same_credentials(co_data) && !stored->0.forbidden
                && stored->0.endpoint == co_data.endpoint
            &&& status == RegistrationStatus::Updated <==> valid && stored is Some && (
                !stored->0.same_credentials(co_data) || (!stored->0.forbidden
                    && stored->0.endpoint != co_data.endpoint))
            &&& status != RegistrationStatus::InternalError
        }),
{
}

/// Whatever the validators and the store answer, a registration reads the
/// store at most twice and writes at most once; what it writes is the
/// submitted registration, never forbidden. It dispatches exactly when it ends
/// `New` or `Updated`, and then the store has taken the very record that is
/// dispatched. It probes only a `New` connection, and counts a forbidden
/// connection as cleared only on an `Updated` one that it read twice.
pub proof fn every_run_is_sound(
    co_data: ConnectionDataView,
    now: u64,
    policy: RefreshPolicy,
    answers: Answers,
)
    ensures
        ({
            let trace = run(co_data, now, policy, answers);
            let done = trace.completion;
            let co = accepted_record(co_data, now);
            let accepted = done.status == RegistrationStatus::New || done.status
                == RegistrationStatus::Updated;
            &&& trace.fetches <= 2
            &&& trace.writes.len() <= 1
            &&& trace.writes.len() == 1 ==> trace.writes[0] == co && !trace.writes[0].forbidden
            &&& accepted <==> done.dispatch is Some
            &&& accepted ==> done.dispatch == Some(co) && trace.writes =~= seq![co]
                && answers.write_ok
            &&& done.probe is Some ==> done.status == RegistrationStatus::New && done.probe
                == parsed_url(co_data.endpoint)
            &&& done.forbidden_cleared ==> done.status == RegistrationStatus::Updated
                && trace.fetches == 2
        }),
{
    reveal_with_fuel(play, 4);
}

/// The course of a registration follows from the status it resolves to at the
/// first read. Invalid input ends it before the store is read. `New` and
/// `Updated` write and end as resolved if the store takes the record. `Running`
/// touches nothing, unless the policy is to renew the time of registration.
/// `Forbidden` reads again and writes only if the record then carries other
/// credentials. Whenever the store refuses a write, the end is `InternalError`.
pub proof fn run_follows_resolution(
    co_data: ConnectionDataView,
    now: u64,
    policy: RefreshPolicy,
    answers: Answers,
)
    ensures
        ({
            let trace = run(co_data, now, policy, answers);
            let done = trace.completion.status;
            let co = accepted_record(co_data, now);
            let written = if answers.write_ok {
                RegistrationStatus::Updated
            } else {
                RegistrationStatus::InternalError
            };
            match resolve(
                co_data,
                answers.uuid_valid,
                answers.endpoint_valid,
                answers.first_fetch,
            ) {
                RegistrationStatus::InvalidUuid => done == RegistrationStatus::InvalidUuid
                    && trace.fetches == 0 && trace.writes.len() == 0,
                RegistrationStatus::InvalidEndpoint => done == RegistrationStatus::InvalidEndpoint
                    && trace.fetches == 0 && trace.writes.len() == 0,
                RegistrationStatus::New => trace.fetches == 1 && trace.writes =~= seq![co] && done
                    == if answers.write_ok {
                    RegistrationStatus::New
                } else {
                    RegistrationStatus::InternalError
                },
                RegistrationStatus::Updated => trace.fetches == 1 && trace.writes =~= seq![co]
                    && done == written && !trace.completion.forbidden_cleared,
                RegistrationStatus::Running => trace.fetches == 1 && match policy {
                    RefreshPolicy::Preserve => trace.writes.len() == 0 && done
                        == RegistrationStatus::Running,
                    RefreshPolicy::Touch => trace.writes =~= seq![co] && done
                        == if answers.write_ok {
                        RegistrationStatus::Running
                    } else {
                        RegistrationStatus::InternalError
                    },
                },
                RegistrationStatus::Forbidden => trace.fetches == 2 && match answers.second_fetch {
                    None => trace.writes.len() == 0 && done == RegistrationStatus::InternalError,
                    Some(again) => if again.same_credentials(co_data) {
                        trace.writes.len() == 0 && done == RegistrationStatus::Forbidden
                    } else {
                        trace.writes =~= seq![co] && done == written && (answers.write_ok
                            ==> trace.completion.forbidden_cleared)
                    },
                },
                RegistrationStatus::InternalError => false,
            }
        }),
{
    reveal_with_fuel(play, 4);
}

/// A uuid that the store does not know is registered: the outcome is `ok`, the
/// store then holds the submitted fields under the uuid, not forbidden, the
/// record is dispatched once, and the endpoint's URL is the one probed.
pub proof fn unknown_uuid_is_created(
    co_data: ConnectionDataView,
    now: u64,
    policy: RefreshPolicy,
    store: Store,
)
    requires
        !store.dom().contains(co_data.uuid),
    ensures
        ({
            let trace = run(
                co_data,
                now,
                policy,
                Answers::quiet(store, co_data.uuid, true, true, true),
            );
            let after = settle(store, trace.writes, true);
            let co = accepted_record(co_data, now);
            &&& trace.completion.status == RegistrationStatus::New
            &&& trace.completion.status.outcome() == OutcomeCode::Okay
            &&& after == upsert(store, co)
            &&& lookup(after, co_data.uuid) == Some(co)
            &&& !co.forbidden
            &&& trace.completion.dispatch == Some(co)
            &&& trace.dispatches() == 1
            &&& trace.completion.probe == parsed_url(co_data.endpoint)
        }),
{
    reveal_with_fuel(play, 4);
    reveal_with_fuel(settle, 2);
    let trace = run(co_data, now, policy, Answers::quiet(store, co_data.uuid, true, true, true));
    assert(trace.writes =~= seq![accepted_record(co_data, now)]);
}

/// Submitting again what the store already holds, not forbidden, changes
/// nothing under the preserving policy: the outcome is `ok`, the store is not
/// written to, and nothing is dispatched or probed.
pub proof fn unchanged_resubmission_is_idle(
    co_data: ConnectionDataView,
    now: u64,
    store: Store,
    write_ok: bool,
)
    requires
        store.dom().contains(co_data.uuid),
        store[co_data.uuid].same_credentials(co_data),
        store[co_data.uuid].endpoint == co_data.endpoint,
        !store[co_data.uuid].forbidden,
    ensures
        ({
            let trace = run(
                co_data,
                now,
                RefreshPolicy::Preserve,
                Answers::quiet(store, co_data.uuid, true, true, write_ok),
            );
            &&& trace.completion.status == RegistrationStatus::Running
            &&& trace.completion.status.outcome() == OutcomeCode::Okay
            &&& trace.writes.len() == 0
            &&& settle(store, trace.writes, write_ok) == store
            &&& trace.dispatches() == 0
            &&& trace.probes() == 0
        }),
{
    reveal_with_fuel(play, 4);
}

/// Under the touching policy the same resubmission writes once, and the write
/// changes nothing of the record but its time of registration. Nothing is
/// dispatched or probed.
pub proof fn unchanged_resubmission_is_touched(
    co_data: ConnectionDataView,
    now: u64,
    store: Store,
)
    requires
        store.dom().contains(co_data.uuid),
        store[co_data.uuid].uuid == co_data.uuid,
        store[co_data.uuid].same_credentials(co_data),
        store[co_data.uuid].endpoint == co_data.endpoint,
        !store[co_data.uuid].forbidden,
    ensures
        ({
            let trace = run(
                co_data,
                now,
                RefreshPolicy::Touch,
                Answers::quiet(store, co_data.uuid, true, true, true),
            );
            let before = store[co_data.uuid];
            &&& trace.completion.status == RegistrationStatus::Running
            &&& trace.completion.status.outcome() == OutcomeCode::Okay
            &&& trace.writes.len() == 1
            &&& trace.writes[0] == ConnectionView { last_registration: now, ..before }
            &&& settle(store, trace.writes, true) == upsert(
                store,
                ConnectionView { last_registration: now, ..before },
            )
            &&& trace.dispatches() == 0
            &&& trace.probes() == 0
        }),
{
    reveal_with_fuel(play, 4);
    reveal_with_fuel(settle, 2);
    let trace = run(
        co_data,
        now,
        RefreshPolicy::Touch,
        Answers::quiet(store, co_data.uuid, true, true, true),
    );
    assert(trace.writes =~= seq![accepted_record(co_data, now)]);
}

/// A refresh that names another endpoint moves the connection there: the
/// outcome is `ok`, the store holds the new endpoint, the record is dispatched
/// once, and nothing is probed.
pub proof fn endpoint_change_is_updated(
    co_data: ConnectionDataView,
    now: u64,
    policy: RefreshPolicy,
    store: Store,
)
    requires
        store.dom().contains(co_data.uuid),
        store[co_data.uuid].same_credentials(co_data),
        store[co_data.uuid].endpoint != co_data.endpoint,
        !store[co_data.uuid].forbidden,
    ensures
        ({
            let trace = run(
                co_data,
                now,
                policy,
                Answers::quiet(store, co_data.uuid, true, true, true),
            );
            let after = settle(store, trace.writes, true);
            let co = accepted_record(co_data, now);
            &&& trace.completion.status == RegistrationStatus::Updated
            &&& trace.completion.status.outcome() == OutcomeCode::Okay
            &&& after == upsert(store, co)
            &&& after[co_data.uuid].endpoint == co_data.endpoint
            &&& trace.completion.dispatch == Some(co)
            &&& trace.dispatches() == 1
            &&& trace.probes() == 0
        }),
{
    reveal_with_fuel(play, 4);
    reveal_with_fuel(settle, 2);
    let trace = run(co_data, now, policy, Answers::quiet(store, co_data.uuid, true, true, true));
    assert(trace.writes =~= seq![accepted_record(co_data, now)]);
}

/// A rotation, a registration under another device id or password than the
/// stored one, replaces the record whether or not it was forbidden: the outcome
/// is `ok`, the store holds the submitted fields, not forbidden, and the record
/// is dispatched once.
pub proof fn rotation_is_updated(
    co_data: ConnectionDataView,
    now: u64,
    policy: RefreshPolicy,
    store: Store,
)
    requires
        store.dom().contains(co_data.uuid),
        !store[co_data.uuid].same_credentials(co_data),
    ensures
        ({
            let trace = run(
                co_data,
                now,
                policy,
                Answers::quiet(store, co_data.uuid, true, true, true),
            );
            let after = settle(store, trace.writes, true);
            let co = accepted_record(co_data, now);
            &&& trace.completion.status == RegistrationStatus::Updated
            &&& trace.completion.status.outcome() == OutcomeCode::Okay
            &&& after == upsert(store, co)
            &&& lookup(after, co_data.uuid) == Some(co)
            &&& !after[co_data.uuid].forbidden
            &&& trace.completion.dispatch == Some(co)
            &&& trace.dispatches() == 1
        }),
{
    reveal_with_fuel(play, 4);
    reveal_with_fuel(settle, 2);
    let trace = run(co_data, now, policy, Answers::quiet(store, co_data.uuid, true, true, true));
    assert(trace.writes =~= seq![accepted_record(co_data, now)]);
}

/// A refresh of a forbidden record is refused, whatever endpoint it names: the
/// outcome is `forbidden`, the store is not written to, and nothing is
/// dispatched. Presenting the stored credentials again revives nothing.
pub proof fn forbidden_refresh_is_refused(
    co_data: ConnectionDataView,
    now: u64,
    policy: RefreshPolicy,
    store: Store,
    write_ok: bool,
)
    requires
        store.dom().contains(co_data.uuid),
        store[co_data.uuid].same_credentials(co_data),
        store[co_data.uuid].forbidden,
    ensures
        ({
            let trace = run(
                co_data,
                now,
                policy,
                Answers::quiet(store, co_data.uuid, true, true, write_ok),
            );
            &&& trace.completion.status == RegistrationStatus::Forbidden
            &&& trace.completion.status.outcome() == OutcomeCode::Forbidden
            &&& trace.writes.len() == 0
            &&& settle(store, trace.writes, write_ok) == store
            &&& trace.dispatches() == 0
            &&& trace.probes() == 0
        }),
{
    reveal_with_fuel(play, 4);
}

/// Only a rotation revives a forbidden connection. If the store holds a
/// forbidden record for the uuid and, with nobody else writing, holds one that
/// is not forbidden once the registration is over, then the registration
/// presented other credentials than the stored ones.
pub proof fn only_rotation_revives(
    co_data: ConnectionDataView,
    now: u64,
    policy: RefreshPolicy,
    store: Store,
    uuid_valid: bool,
    endpoint_valid: bool,
    write_ok: bool,
)
    requires
        store.dom().contains(co_data.uuid),
        store[co_data.uuid].forbidden,
    ensures
        ({
            let trace = run(
                co_data,
                now,
                policy,
                Answers::quiet(store, co_data.uuid, uuid_valid, endpoint_valid, write_ok),
            );
            let after = settle(store, trace.writes, write_ok);
            &&& after.dom().contains(co_data.uuid)
            &&& !after[co_data.uuid].forbidden ==> !store[co_data.uuid].same_credentials(co_data)
        }),
{
    reveal_with_fuel(play, 4);
    reveal_with_fuel(settle, 2);
    let trace = run(
        co_data,
        now,
        policy,
        Answers::quiet(store, co_data.uuid, uuid_valid, endpoint_valid, write_ok),
    );
    every_run_is_sound(
        co_data,
        now,
        policy,
        Answers::quiet(store, co_data.uuid, uuid_valid, endpoint_valid, write_ok),
    );
    if trace.writes.len() == 1 {
        assert(trace.writes.drop_last().len() == 0);
    }
}

/// Registration is idempotent under the preserving policy. Once a
/// registration has been accepted and written, submitting it again, at
/// whatever time, is `Running`: the store is read once and not written to, and
/// nothing is dispatched or probed.
pub proof fn accepted_registration_is_idempotent(
    co_data: ConnectionDataView,
    now: u64,
    later: u64,
    policy: RefreshPolicy,
    answers: Answers,
    store: Store,
)
    requires
        answers.write_ok,
        run(co_data, now, policy, answers).writes.len() == 1,
    ensures
        ({
            let first = run(co_data, now, policy, answers);
            let between = settle(store, first.writes, true);
            let again = run(
                co_data,
                later,
                RefreshPolicy::Preserve,
                Answers::quiet(between, co_data.uuid, true, true, true),
            );
            &&& again.completion.status == RegistrationStatus::Running
            &&& again.fetches == 1
            &&& again.writes.len() == 0
            &&& settle(between, again.writes, true) == between
            &&& again.dispatches() == 0
            &&& again.probes() == 0
        }),
{
    reveal_with_fuel(play, 4);
    reveal_with_fuel(settle, 2);
    every_run_is_sound(co_data, now, policy, answers);
    let first = run(co_data, now, policy, answers);
    assert(first.writes.drop_last().len() == 0);
}

/// A uuid that fails validation ends the registration at once: the outcome is
/// `invalid_uuid` and the store is neither read nor written, whatever it would
/// have answered.
pub proof fn invalid_uuid_stops_short(
    co_data: ConnectionDataView,
    now: u64,
    policy: RefreshPolicy,
    answers: Answers,
)
    requires
        !answers.uuid_valid,
    ensures
        ({
            let trace = run(co_data, now, policy, answers);
            &&& trace.completion.status == RegistrationStatus::InvalidUuid
            &&& trace.completion.status.outcome() == OutcomeCode::InvalidUuid
            &&& trace.fetches == 0
            &&& trace.writes.len() == 0
            &&& trace.dispatches() == 0
            &&& trace.probes() == 0
        }),
{
    reveal_with_fuel(play, 4);
}

/// An endpoint that fails validation, under a valid uuid, ends the
/// registration at once: the outcome is `invalid_endpoint` and the store is
/// neither read nor written.
pub proof fn invalid_endpoint_stops_short(
    co_data: ConnectionDataView,
    now: u64,
    policy: RefreshPolicy,
    answers: Answers,
)
    requires
        answers.uuid_valid,
        !answers.endpoint_valid,
    ensures
        ({
            let trace = run(co_data, now, policy, answers);
            &&& trace.completion.status == RegistrationStatus::InvalidEndpoint
            &&& trace.completion.status.outcome() == OutcomeCode::InvalidEndpoint
            &&& trace.fetches == 0
            &&& trace.writes.len() == 0
            &&& trace.dispatches() == 0
            &&& trace.probes() == 0
        }),
{
    reveal_with_fuel(play, 4);
}

/// When the store refuses the write, a registration that asked for one ends in
/// `internal_error`, whatever it had resolved to; nothing is dispatched or
/// probed, no forbidden connection is counted as cleared, and the store is as
/// it was.
pub proof fn refused_write_is_internal_error(
    co_data: ConnectionDataView,
    now: u64,
    policy: RefreshPolicy,
    answers: Answers,
    store: Store,
)
    requires
        !answers.write_ok,
    ensures
        ({
            let trace = run(co_data, now, policy, answers);
            &&& trace.writes.len() > 0 ==> trace.completion.status
                == RegistrationStatus::InternalError && trace.completion.status.outcome()
                == OutcomeCode::InternalError
            &&& trace.dispatches() == 0
            &&& trace.probes() == 0
            &&& !trace.completion.forbidden_cleared
            &&& settle(store, trace.writes, false) == store
        }),
{
    reveal_with_fuel(play, 4);
}

/// A refresh has read a forbidden record; before it reads again, a rotation
/// writes `rival` under the same uuid. The second read then shows credentials
/// that are not the registration's own, and the registration is not turned away
/// on the strength of the flag it read first: it is written like any
/// registration under new credentials, so that the store ends with its fields,
/// not forbidden, the record dispatched and the forbidden connection counted as
/// cleared; or, if the store refuses, it ends in `internal_error`. It never ends
/// `forbidden`.
pub proof fn raced_rotation_is_not_refused(
    co_data: ConnectionDataView,
    now: u64,
    policy: RefreshPolicy,
    store: Store,
    rival: ConnectionView,
    write_ok: bool,
)
    requires
        store.dom().contains(co_data.uuid),
        store[co_data.uuid].same_credentials(co_data),
        store[co_data.uuid].forbidden,
        rival.uuid == co_data.uuid,
        !rival.same_credentials(co_data),
    ensures
        ({
            let trace = run(
                co_data,
                now,
                policy,
                Answers::raced(store, rival, co_data.uuid, true, true, write_ok),
            );
            let after = settle(upsert(store, rival), trace.writes, write_ok);
            let co = accepted_record(co_data, now);
            &&& trace.fetches == 2
            &&& trace.writes =~= seq![co]
            &&& trace.completion.status != RegistrationStatus::Forbidden
            &&& write_ok ==> {
                &&& trace.completion.status == RegistrationStatus::Updated
                &&& trace.completion.status.outcome() == OutcomeCode::Okay
                &&& lookup(after, co_data.uuid) == Some(co)
                &&& !after[co_data.uuid].forbidden
                &&& trace.completion.dispatch == Some(co)
                &&& trace.completion.forbidden_cleared
            }
            &&& !write_ok ==> {
                &&& trace.completion.status == RegistrationStatus::InternalError
                &&& after == upsert(store, rival)
                &&& trace.dispatches() == 0
            }
        }),
{
    reveal_with_fuel(play, 4);
    reveal_with_fuel(settle, 2);
    let trace = run(
        co_data,
        now,
        policy,
        Answers::raced(store, rival, co_data.uuid, true, true, write_ok),
    );
    assert(trace.writes =~= seq![accepted_record(co_data, now)]);
}

/// A registration ends `forbidden` only on the word of the store's latest
/// answer: it has read twice, both records carried its own credentials, the
/// first was forbidden, and it has written nothing.
pub proof fn forbidden_rests_on_the_latest_read(
    co_data: ConnectionDataView,
    now: u64,
    policy: RefreshPolicy,
    answers: Answers,
)
    requires
        run(co_data, now, policy, answers).completion.status == RegistrationStatus::Forbidden,
    ensures
        ({
            let trace = run(co_data, now, policy, answers);
            &&& trace.fetches == 2
            &&& trace.writes.len() == 0
            &&& answers.first_fetch is Some
            &&& answers.first_fetch->0.same_credentials(co_data)
            &&& answers.first_fetch->0.forbidden
            &&& answers.second_fetch is Some
            &&& answers.second_fetch->0.same_credentials(co_data)
        }),
{
    reveal_with_fuel(play, 4);
}

/// A store in which every record is filed under its own uuid stays so through
/// a registration of a uuid, whatever the registration does.
pub proof fn store_stays_keyed(
    co_data: ConnectionDataView,
    now: u64,
    policy: RefreshPolicy,
    answers: Answers,
    store: Store,
)
    requires
        keyed(store),
    ensures
        keyed(settle(store, run(co_data, now, policy, answers).writes, answers.write_ok)),
{
    reveal_with_fuel(play, 4);
    reveal_with_fuel(settle, 2);
    every_run_is_sound(co_data, now, policy, answers);
    let writes = run(co_data, now, policy, answers).writes;
    if writes.len() == 1 {
        assert(writes.drop_last().len() == 0);
    }
}

} // verus!
