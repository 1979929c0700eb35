use std::collections::HashMap;

use mollysocket::connection::{Connection, ConnectionData};
use mollysocket::register::{
    Action, Cause, Completion, Event, Phase, RefreshPolicy, Registration,
};
use mollysocket::status::{OutcomeCode, RegistrationStatus};

const UUID: &str = "0d8ff653-3d08-4ee8-b764-ad5dc8c2dd39";
const NOW: u64 = 1_700_000_123;

/// A store on the desk: what a registration is driven against.
struct Desk {
    store: HashMap<String, Connection>,
    write_ok: bool,
    /// Written by somebody else right after the first read.
    rival: Option<Connection>,
    fetches: usize,
    writes: Vec<Connection>,
}

fn desk(records: Vec<Connection>) -> Desk {
    Desk {
        store: records
            .into_iter()
            .map(|co| (co.uuid.clone(), co))
            .collect(),
        write_ok: true,
        rival: None,
        fetches: 0,
        writes: Vec::new(),
    }
}

fn drive(
    desk: &mut Desk,
    co_data: ConnectionData,
    policy: RefreshPolicy,
    uuid_valid: bool,
    endpoint_valid: bool,
) -> Completion {
    let uuid = co_data.uuid.clone();
    let mut registration = Registration::new(co_data, NOW, policy);
    let mut action = registration.step(Event::Validated {
        uuid_valid,
        endpoint_valid,
    });
    loop {
        let event = match action {
            Action::Finish(done) => {
                assert_eq!(registration.phase(), Phase::Finished);
                return done;
            }
            Action::Fetch => {
                desk.fetches += 1;
                let found = desk.store.get(&uuid).cloned();
                if let Some(rival) = desk.rival.take() {
                    desk.store.insert(rival.uuid.clone(), rival);
                }
                Event::Fetched(found)
            }
            Action::Write(co) => {
                desk.writes.push(co.clone());
                if desk.write_ok {
                    desk.store.insert(co.uuid.clone(), co);
                }
                Event::Written(desk.write_ok)
            }
        };
        action = registration.step(event);
    }
}

fn submitted() -> ConnectionData {
    ConnectionData {
        uuid: String::from(UUID),
        device_id: 2,
        password: String::from("hunter2"),
        endpoint: String::from("https://push.example.net/up?token=abc"),
    }
}

fn stored() -> Connection {
    Connection {
        uuid: String::from(UUID),
        device_id: 2,
        password: String::from("hunter2"),
        endpoint: String::from("https://push.example.net/up?token=abc"),
        forbidden: false,
        last_registration: 1_600_000_000,
    }
}

fn accepted() -> Connection {
    Connection {
        last_registration: NOW,
        ..stored()
    }
}

fn bystander() -> Connection {
    Connection {
        uuid: String::from("7c9e6679-7425-40de-944b-e07fc1f90ae7"),
        device_id: 9,
        password: String::from("other"),
        endpoint: String::from("https://push.example.org/"),
        forbidden: true,
        last_registration: 1_500_000_000,
    }
}

#[test]
fn new_uuid_is_stored_dispatched_and_probed() {
    let mut desk = desk(vec![bystander()]);
    let done = drive(&mut desk, submitted(), RefreshPolicy::Preserve, true, true);

    assert_eq!(done.status, RegistrationStatus::New);
    assert_eq!(String::from(done.status), "ok");
    assert_eq!(desk.fetches, 1);
    assert_eq!(desk.writes, vec![accepted()]);
    assert_eq!(desk.store[UUID], accepted());
    assert!(!desk.store[UUID].forbidden);
    assert_eq!(desk.store.len(), 2);
    assert_eq!(desk.store[&bystander().uuid], bystander());
    assert_eq!(done.dispatch, Some(accepted()));
    assert_eq!(
        done.probe,
        Some(String::from("https://push.example.net/up?token=abc"))
    );
    assert!(!done.forbidden_cleared);
}

#[test]
fn unchanged_resubmission_touches_nothing() {
    let mut desk = desk(vec![stored()]);
    let done = drive(&mut desk, submitted(), RefreshPolicy::Preserve, true, true);

    assert_eq!(done, Completion::bare(RegistrationStatus::Running));
    assert_eq!(String::from(done.status), "ok");
    assert_eq!(desk.fetches, 1);
    assert!(desk.writes.is_empty());
    assert_eq!(desk.store[UUID], stored());
    assert_eq!(done.dispatch, None);
    assert_eq!(done.probe, None);
}

#[test]
fn resubmission_is_idempotent() {
    let mut desk = desk(vec![]);
    let first = drive(&mut desk, submitted(), RefreshPolicy::Preserve, true, true);
    let second = drive(&mut desk, submitted(), RefreshPolicy::Preserve, true, true);
    let third = drive(&mut desk, submitted(), RefreshPolicy::Preserve, true, true);

    assert_eq!(first.status, RegistrationStatus::New);
    assert_eq!(second.status, RegistrationStatus::Running);
    assert_eq!(third.status, RegistrationStatus::Running);
    assert_eq!(desk.writes.len(), 1);
    assert_eq!(second.dispatch, None);
    assert_eq!(third.dispatch, None);
}

#[test]
fn unchanged_resubmission_renews_the_time_when_asked_to() {
    let mut desk = desk(vec![stored()]);
    let done = drive(&mut desk, submitted(), RefreshPolicy::Touch, true, true);

    assert_eq!(done, Completion::bare(RegistrationStatus::Running));
    assert_eq!(desk.writes, vec![accepted()]);
    assert_eq!(desk.store[UUID].last_registration, NOW);
    assert_eq!(
        desk.store[UUID],
        Connection {
            last_registration: NOW,
            ..stored()
        }
    );
    assert_eq!(done.dispatch, None);
    assert_eq!(done.probe, None);
}

#[test]
fn refused_renewal_is_an_internal_error() {
    let mut desk = desk(vec![stored()]);
    desk.write_ok = false;
    let done = drive(&mut desk, submitted(), RefreshPolicy::Touch, true, true);

    assert_eq!(done, Completion::bare(RegistrationStatus::InternalError));
    assert_eq!(desk.store[UUID], stored());
}

#[test]
fn new_endpoint_is_written_and_dispatched_but_not_probed() {
    let before = Connection {
        endpoint: String::from("https://push.example.net/up?token=old"),
        ..stored()
    };
    let mut desk = desk(vec![before]);
    let done = drive(&mut desk, submitted(), RefreshPolicy::Preserve, true, true);

    assert_eq!(done.status, RegistrationStatus::Updated);
    assert_eq!(String::from(done.status), "ok");
    assert_eq!(desk.fetches, 1);
    assert_eq!(desk.writes, vec![accepted()]);
    assert_eq!(
        desk.store[UUID].endpoint,
        "https://push.example.net/up?token=abc"
    );
    assert_eq!(done.dispatch, Some(accepted()));
    assert_eq!(done.probe, None);
    assert!(!done.forbidden_cleared);
}

#[test]
fn rotated_device_id_replaces_the_record() {
    let before = Connection {
        device_id: 1,
        endpoint: String::from("https://push.example.net/up?token=old"),
        ..stored()
    };
    let mut desk = desk(vec![before]);
    let done = drive(&mut desk, submitted(), RefreshPolicy::Preserve, true, true);

    assert_eq!(done.status, RegistrationStatus::Updated);
    assert_eq!(String::from(done.status), "ok");
    assert_eq!(desk.store[UUID], accepted());
    assert_eq!(desk.writes.len(), 1);
    assert_eq!(done.dispatch, Some(accepted()));
    assert_eq!(done.probe, None);
}

#[test]
fn rotated_password_replaces_the_record() {
    let before = Connection {
        password: String::from("hunter1"),
        ..stored()
    };
    let mut desk = desk(vec![before]);
    let done = drive(&mut desk, submitted(), RefreshPolicy::Preserve, true, true);

    assert_eq!(done.status, RegistrationStatus::Updated);
    assert_eq!(desk.store[UUID], accepted());
    assert_eq!(done.dispatch, Some(accepted()));
}

#[test]
fn rotation_clears_the_forbidden_flag() {
    let before = Connection {
        device_id: 1,
        forbidden: true,
        ..stored()
    };
    let mut desk = desk(vec![before]);
    let done = drive(&mut desk, submitted(), RefreshPolicy::Preserve, true, true);

    assert_eq!(done.status, RegistrationStatus::Updated);
    assert_eq!(String::from(done.status), "ok");
    assert_eq!(desk.fetches, 1);
    assert_eq!(desk.store[UUID], accepted());
    assert!(!desk.store[UUID].forbidden);
    assert_eq!(done.dispatch, Some(accepted()));
    assert!(!done.forbidden_cleared);
}

#[test]
fn forbidden_refresh_is_refused() {
    let before = Connection {
        forbidden: true,
        ..stored()
    };
    let mut desk = desk(vec![before]);
    let done = drive(&mut desk, submitted(), RefreshPolicy::Preserve, true, true);

    assert_eq!(done, Completion::bare(RegistrationStatus::Forbidden));
    assert_eq!(String::from(done.status), "forbidden");
    assert_eq!(done.status.outcome(), OutcomeCode::Forbidden);
    assert_eq!(desk.fetches, 2);
    assert!(desk.writes.is_empty());
    assert!(desk.store[UUID].forbidden);
    assert_eq!(done.dispatch, None);
}

#[test]
fn forbidden_refresh_is_refused_under_either_policy_and_endpoint() {
    let before = Connection {
        forbidden: true,
        endpoint: String::from("https://push.example.net/up?token=old"),
        ..stored()
    };
    let mut desk = desk(vec![before]);
    let done = drive(&mut desk, submitted(), RefreshPolicy::Touch, true, true);

    assert_eq!(done, Completion::bare(RegistrationStatus::Forbidden));
    assert!(desk.writes.is_empty());
    assert_eq!(
        desk.store[UUID].endpoint,
        "https://push.example.net/up?token=old"
    );
}

#[test]
fn invalid_uuid_never_reaches_the_store() {
    let mut desk = desk(vec![stored()]);
    let done = drive(&mut desk, submitted(), RefreshPolicy::Preserve, false, true);

    assert_eq!(done, Completion::bare(RegistrationStatus::InvalidUuid));
    assert_eq!(String::from(done.status), "invalid_uuid");
    assert_eq!(desk.fetches, 0);
    assert!(desk.writes.is_empty());
}

#[test]
fn invalid_uuid_is_named_before_invalid_endpoint() {
    let mut desk = desk(vec![]);
    let done = drive(&mut desk, submitted(), RefreshPolicy::Preserve, false, false);

    assert_eq!(done, Completion::bare(RegistrationStatus::InvalidUuid));
    assert_eq!(desk.fetches, 0);
}

#[test]
fn invalid_endpoint_never_reaches_the_store() {
    let mut desk = desk(vec![]);
    let done = drive(&mut desk, submitted(), RefreshPolicy::Preserve, true, false);

    assert_eq!(done, Completion::bare(RegistrationStatus::InvalidEndpoint));
    assert_eq!(String::from(done.status), "invalid_endpoint");
    assert_eq!(desk.fetches, 0);
    assert!(desk.writes.is_empty());
    assert!(desk.store.is_empty());
}

#[test]
fn refused_write_of_a_new_record_is_an_internal_error() {
    let mut desk = desk(vec![]);
    desk.write_ok = false;
    let done = drive(&mut desk, submitted(), RefreshPolicy::Preserve, true, true);

    assert_eq!(done, Completion::bare(RegistrationStatus::InternalError));
    assert_eq!(String::from(done.status), "internal_error");
    assert_eq!(desk.writes.len(), 1);
    assert!(desk.store.is_empty());
    assert_eq!(done.dispatch, None);
    assert_eq!(done.probe, None);
}

#[test]
fn refused_write_of_an_update_is_an_internal_error() {
    let before = Connection {
        device_id: 1,
        ..stored()
    };
    let mut desk = desk(vec![before]);
    desk.write_ok = false;
    let done = drive(&mut desk, submitted(), RefreshPolicy::Preserve, true, true);

    assert_eq!(done, Completion::bare(RegistrationStatus::InternalError));
    assert_eq!(desk.store[UUID].device_id, 1);
    assert_eq!(done.dispatch, None);
}

#[test]
fn raced_rotation_is_written_not_refused() {
    let before = Connection {
        forbidden: true,
        ..stored()
    };
    let rival = Connection {
        device_id: 3,
        password: String::from("rotated"),
        endpoint: String::from("https://push.example.net/up?token=new"),
        forbidden: false,
        last_registration: NOW,
        uuid: String::from(UUID),
    };
    let mut desk = desk(vec![before]);
    desk.rival = Some(rival);
    let done = drive(&mut desk, submitted(), RefreshPolicy::Preserve, true, true);

    assert_eq!(done.status, RegistrationStatus::Updated);
    assert_eq!(String::from(done.status), "ok");
    assert_eq!(desk.fetches, 2);
    assert_eq!(desk.writes, vec![accepted()]);
    assert_eq!(desk.store[UUID], accepted());
    assert!(!desk.store[UUID].forbidden);
    assert_eq!(done.dispatch, Some(accepted()));
    assert_eq!(done.probe, None);
    assert!(done.forbidden_cleared);
}

#[test]
fn raced_rotation_with_refused_write_is_an_internal_error() {
    let before = Connection {
        forbidden: true,
        ..stored()
    };
    let rival = Connection {
        device_id: 3,
        ..stored()
    };
    let mut desk = desk(vec![before]);
    desk.rival = Some(rival);
    desk.write_ok = false;
    let done = drive(&mut desk, submitted(), RefreshPolicy::Preserve, true, true);

    assert_eq!(done, Completion::bare(RegistrationStatus::InternalError));
    assert_eq!(desk.fetches, 2);
    assert_eq!(desk.store[UUID].device_id, 3);
}

#[test]
fn record_gone_at_the_second_read_is_an_internal_error() {
    let before = Connection {
        forbidden: true,
        ..stored()
    };
    let mut registration = Registration::new(submitted(), NOW, RefreshPolicy::Preserve);
    assert_eq!(
        registration.step(Event::Validated {
            uuid_valid: true,
            endpoint_valid: true
        }),
        Action::Fetch
    );
    assert_eq!(registration.step(Event::Fetched(Some(before))), Action::Fetch);
    assert_eq!(registration.phase(), Phase::Rechecking);
    assert_eq!(
        registration.step(Event::Fetched(None)),
        Action::Finish(Completion::bare(RegistrationStatus::InternalError))
    );
    assert_eq!(registration.phase(), Phase::Finished);
}

#[test]
fn phases_follow_the_exchange() {
    let mut registration = Registration::new(submitted(), NOW, RefreshPolicy::Preserve);
    assert_eq!(registration.phase(), Phase::Validating);
    assert_eq!(registration.co_data(), &submitted());

    let action = registration.step(Event::Validated {
        uuid_valid: true,
        endpoint_valid: true,
    });
    assert_eq!(action, Action::Fetch);
    assert_eq!(registration.phase(), Phase::Resolving);

    let action = registration.step(Event::Fetched(None));
    assert_eq!(action, Action::Write(accepted()));
    assert_eq!(registration.phase(), Phase::Writing(Cause::Created));

    let action = registration.step(Event::Written(true));
    assert_eq!(registration.phase(), Phase::Finished);
    match action {
        Action::Finish(done) => assert_eq!(done.status, RegistrationStatus::New),
        other => panic!("unexpected action {:?}", other),
    }
}

#[test]
fn write_causes_are_told_apart() {
    let rotated = Connection {
        device_id: 1,
        ..stored()
    };
    let mut registration = Registration::new(submitted(), NOW, RefreshPolicy::Touch);
    registration.validated(true, true);
    registration.fetched(Some(rotated));
    assert_eq!(registration.phase(), Phase::Writing(Cause::Replaced));

    let mut registration = Registration::new(submitted(), NOW, RefreshPolicy::Touch);
    registration.validated(true, true);
    registration.fetched(Some(stored()));
    assert_eq!(registration.phase(), Phase::Writing(Cause::Touched));

    let forbidden = Connection {
        forbidden: true,
        ..stored()
    };
    let mut registration = Registration::new(submitted(), NOW, RefreshPolicy::Touch);
    registration.validated(true, true);
    registration.fetched(Some(forbidden));
    registration.fetched(Some(Connection {
        password: String::from("rotated"),
        ..stored()
    }));
    assert_eq!(registration.phase(), Phase::Writing(Cause::Revived));
}

#[test]
fn event_out_of_turn_is_an_internal_error() {
    let failed = Action::Finish(Completion::bare(RegistrationStatus::InternalError));

    let mut registration = Registration::new(submitted(), NOW, RefreshPolicy::Preserve);
    assert_eq!(registration.step(Event::Fetched(None)), failed);
    assert_eq!(registration.phase(), Phase::Finished);

    let mut registration = Registration::new(submitted(), NOW, RefreshPolicy::Preserve);
    assert_eq!(registration.step(Event::Written(true)), failed);

    let mut registration = Registration::new(submitted(), NOW, RefreshPolicy::Preserve);
    registration.validated(true, true);
    assert_eq!(registration.step(Event::Written(true)), failed);

    let mut registration = Registration::new(submitted(), NOW, RefreshPolicy::Preserve);
    registration.validated(true, true);
    assert_eq!(
        registration.step(Event::Validated {
            uuid_valid: true,
            endpoint_valid: true
        }),
        failed
    );

    let mut registration = Registration::new(submitted(), NOW, RefreshPolicy::Preserve);
    registration.validated(true, true);
    registration.fetched(None);
    assert_eq!(registration.step(Event::Fetched(None)), failed);
}

#[test]
fn finished_registration_answers_internal_error() {
    let mut registration = Registration::new(submitted(), NOW, RefreshPolicy::Preserve);
    registration.validated(false, true);
    assert_eq!(registration.phase(), Phase::Finished);
    assert_eq!(
        registration.step(Event::Validated {
            uuid_valid: true,
            endpoint_valid: true
        }),
        Action::Finish(Completion::bare(RegistrationStatus::InternalError))
    );
    assert_eq!(
        registration.step(Event::Written(true)),
        Action::Finish(Completion::bare(RegistrationStatus::InternalError))
    );
    assert_eq!(registration.phase(), Phase::Finished);
}

#[test]
fn probe_is_the_url_the_endpoint_parses_to() {
    let co_data = ConnectionData {
        endpoint: String::from("HTTPS://Push.Example.NET:443/a/../up"),
        ..submitted()
    };
    let mut desk = desk(vec![]);
    let done = drive(&mut desk, co_data, RefreshPolicy::Preserve, true, true);

    assert_eq!(done.status, RegistrationStatus::New);
    assert_eq!(
        done.probe,
        Some(String::from("https://push.example.net/up"))
    );
    assert_eq!(
        desk.store[UUID].endpoint,
        "HTTPS://Push.Example.NET:443/a/../up"
    );
}

#[test]
fn bare_host_gets_its_root_path() {
    let co_data = ConnectionData {
        endpoint: String::from("https://example.net"),
        ..submitted()
    };
    let mut desk = desk(vec![]);
    let done = drive(&mut desk, co_data, RefreshPolicy::Preserve, true, true);

    assert_eq!(done.probe, Some(String::from("https://example.net/")));
}

#[test]
fn endpoint_that_is_no_url_is_registered_but_not_probed() {
    let co_data = ConnectionData {
        endpoint: String::from("push.example.net/up"),
        ..submitted()
    };
    let mut desk = desk(vec![]);
    let done = drive(&mut desk, co_data, RefreshPolicy::Preserve, true, true);

    assert_eq!(done.status, RegistrationStatus::New);
    assert_eq!(desk.store[UUID].endpoint, "push.example.net/up");
    assert!(done.dispatch.is_some());
    assert_eq!(done.probe, None);
}

#[test]
fn written_takes_the_probe_it_is_given() {
    let mut registration = Registration::new(submitted(), NOW, RefreshPolicy::Preserve);
    registration.validated(true, true);
    registration.fetched(None);
    let action = registration.written(true, Some(String::from("https://probe.example.net/")));
    assert_eq!(
        action,
        Action::Finish(Completion {
            status: RegistrationStatus::New,
            dispatch: Some(accepted()),
            probe: Some(String::from("https://probe.example.net/")),
            forbidden_cleared: false,
        })
    );

    let rotated = Connection {
        device_id: 1,
        ..stored()
    };
    let mut registration = Registration::new(submitted(), NOW, RefreshPolicy::Preserve);
    registration.validated(true, true);
    registration.fetched(Some(rotated));
    let action = registration.written(true, Some(String::from("https://probe.example.net/")));
    assert_eq!(
        action,
        Action::Finish(Completion {
            status: RegistrationStatus::Updated,
            dispatch: Some(accepted()),
            probe: None,
            forbidden_cleared: false,
        })
    );
}
