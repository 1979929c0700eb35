//! A whole registration, from submission to outcome, in ghost code: the machine
//! of [`crate::register`] driven the way its caller is meant to drive it,
//! against given answers of the validators and the store.

use vstd::prelude::*;
use crate::connection::{ConnectionDataView, ConnectionView};
use crate::register::{
    ActionView,
    CompletionView,
    EventView,
    Phase,
    RefreshPolicy,
    RegistrationView,
};
use crate::status::RegistrationStatus;
use crate::store::{lookup, upsert, Store};

verus! {

/// What the validators and the store answer in the course of one registration.
/// The two reads are answered independently of each other: between them other
/// registrations may have written to the store.
pub struct Answers {
    pub uuid_valid: bool,
    pub endpoint_valid: bool,
    /// The store's answer to the first read.
    pub first_fetch: Option<ConnectionView>,
    /// Its answer to a second read.
    pub second_fetch: Option<ConnectionView>,
    /// Whether it takes what it is asked to write.
    pub write_ok: bool,
}

impl Answers {
    /// The store's answer to a read that `fetches` reads went before.
    pub open spec fn fetch(self, fetches: nat) -> Option<ConnectionView> {
        if fetches == 0 {
            self.first_fetch
        } else {
            self.second_fetch
        }
    }

    /// The answers where the store holds `store` and nobody else writes to it
    /// while the registration of `uuid` is under way.
    pub open spec fn quiet(
        store: Store,
        uuid: Seq<char>,
        uuid_valid: bool,
        endpoint_valid: bool,
        write_ok: bool,
    ) -> Answers {
        Answers {
            uuid_valid,
            endpoint_valid,
            first_fetch: lookup(store, uuid),
            second_fetch: lookup(store, uuid),
            write_ok,
        }
    }

    /// The answers where the store holds `store` at the first read and another
    /// registration writes `rival` before the second.
    pub open spec fn raced(
        store: Store,
        rival: ConnectionView,
        uuid: Seq<char>,
        uuid_valid: bool,
        endpoint_valid: bool,
        write_ok: bool,
    ) -> Answers {
        Answers {
            uuid_valid,
            endpoint_valid,
            first_fetch: lookup(store, uuid),
            second_fetch: lookup(upsert(store, rival), uuid),
            write_ok,
        }
    }
}

/// What one registration did to its surroundings, and how it ended.
pub struct Trace {
    /// How many times the store was read.
    pub fetches: nat,
    /// The records the store was asked to write, in order.
    pub writes: Seq<ConnectionView>,
    /// The ending, with the dispatch and the probe that follow it.
    pub completion: CompletionView,
}

impl Trace {
    /// How many records are handed to the live-connection manager.
    pub open spec fn dispatches(self) -> nat {
        if self.completion.dispatch is Some {
            1
        } else {
            0
        }
    }

    /// How many endpoints are probed.
    pub open spec fn probes(self) -> nat {
        if self.completion.probe is Some {
            1
        } else {
            0
        }
    }
}

/// Performs `action` and whatever the machine asks for after it, each read and
/// write answered as `answers` says, until the machine finishes. `fetches` and
/// `writes` are the reads and writes performed before.
pub open spec fn play(
    machine: RegistrationView,
    action: ActionView,
    answers: Answers,
    fetches: nat,
    writes: Seq<ConnectionView>,
) -> Trace
    decreases machine.phase.rank(),
{
    match action {
        ActionView::Finish(completion) => Trace { fetches, writes, completion },
        ActionView::Fetch => {
            if machine.phase == Phase::Finished {
                Trace {
                    fetches,
                    writes,
                    completion: CompletionView::bare(RegistrationStatus::InternalError),
                }
            } else {
                let next = machine.step(EventView::Fetched(answers.fetch(fetches)));
                play(next.0, next.1, answers, fetches + 1, writes)
            }
        },
        ActionView::Write(co) => {
            if machine.phase == Phase::Finished {
                Trace {
                    fetches,
                    writes,
                    completion: CompletionView::bare(RegistrationStatus::InternalError),
                }
            } else {
                let next = machine.step(EventView::Written(answers.write_ok));
                play(next.0, next.1, answers, fetches, writes.push(co))
            }
        },
    }
}

/// The registration of `co_data`, submitted at `now`, played against `answers`.
pub open spec fn run(
    co_data: ConnectionDataView,
    now: u64,
    policy: RefreshPolicy,
    answers: Answers,
) -> Trace {
    let first = RegistrationView::start(co_data, now, policy).step(
        EventView::Validated {
            uuid_valid: answers.uuid_valid,
            endpoint_valid: answers.endpoint_valid,
        },
    );
    play(first.0, first.1, answers, 0, Seq::empty())
}

} // verus!
