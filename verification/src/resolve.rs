//! Status resolution: what a registration amounts to, given the validators'
//! verdicts and the record stored for its uuid. A decision only; nothing is
//! read or written here.

use vstd::prelude::*;
use crate::connection::{Connection, ConnectionData, ConnectionDataView, ConnectionView};
use crate::status::RegistrationStatus;

verus! {

/// The status of `co_data`, the first rule that applies deciding:
///
/// 1. an invalid uuid is `InvalidUuid`;
/// 2. an invalid endpoint is `InvalidEndpoint`;
/// 3. with no record stored, the registration is `New`;
/// 4. a refresh (the stored credential pair is presented again) is `Forbidden`
///    if the record is forbidden, else `Updated` if the endpoint changes, else
///    `Running`;
/// 5. a rotation (another credential pair) is `Updated`, forbidden or not.
pub open spec fn resolve(
    co_data: ConnectionDataView,
    uuid_valid: bool,
    endpoint_valid: bool,
    stored: Option<ConnectionView>,
) -> RegistrationStatus {
    if !uuid_valid {
        RegistrationStatus::InvalidUuid
    } else if !endpoint_valid {
        RegistrationStatus::InvalidEndpoint
    } else {
        match stored {
            None => RegistrationStatus::New,
            Some(co) => {
                if !co.same_credentials(co_data) {
                    RegistrationStatus::Updated
                } else if co.forbidden {
                    RegistrationStatus::Forbidden
                } else if co.endpoint != co_data.endpoint {
                    RegistrationStatus::Updated
                } else {
                    RegistrationStatus::Running
                }
            },
        }
    }
}

/// Resolves `co_data` against `stored`, the record the store holds for its uuid
/// (`None` where it holds none), and the validators' verdicts.
pub fn registration_status(
    co_data: &ConnectionData,
    uuid_valid: bool,
    endpoint_valid: bool,
    stored: Option<&Connection>,
) -> (status: RegistrationStatus)
    ensures
        status == resolve(
            co_data@,
            uuid_valid,
            endpoint_valid,
            match stored {
                Some(co) => Some(co@),
                None => None,
            },
        ),
{
    if !uuid_valid {
        return RegistrationStatus::InvalidUuid;
    }
    if !endpoint_valid {
        return RegistrationStatus::InvalidEndpoint;
    }
    let co = match stored {
        Some(co) => co,
        None => {
            return RegistrationStatus::New;
        },
    };
    if co.same_credentials(co_data) {
        if co.forbidden {
            RegistrationStatus::Forbidden
        } else if co.endpoint != co_data.endpoint {
            RegistrationStatus::Updated
        } else {
            RegistrationStatus::Running
        }
    } else {
        RegistrationStatus::Updated
    }
}

} // verus!
