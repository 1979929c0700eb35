//! The registration a device submits and the record the store keeps of it.

use vstd::prelude::*;

verus! {

/// A registration as submitted: the device's uuid, its credential pair and the
/// endpoint it wants to be pushed at.
#[derive(Debug, PartialEq, Eq)]
pub struct ConnectionData {
    pub uuid: String,
    pub device_id: u32,
    pub password: String,
    pub endpoint: String,
}

/// What a [`ConnectionData`] holds.
pub struct ConnectionDataView {
    pub uuid: Seq<char>,
    pub device_id: u32,
    pub password: Seq<char>,
    pub endpoint: Seq<char>,
}

impl View for ConnectionData {
    type V = ConnectionDataView;

    open spec fn view(&self) -> ConnectionDataView {
        ConnectionDataView {
            uuid: self.uuid@,
            device_id: self.device_id,
            password: self.password@,
            endpoint: self.endpoint@,
        }
    }
}

impl Clone for ConnectionData {
    fn clone(&self) -> (copy: Self)
        ensures
            copy == *self,
    {
        ConnectionData {
            uuid: self.uuid.clone(),
            device_id: self.device_id,
            password: self.password.clone(),
            endpoint: self.endpoint.clone(),
        }
    }
}

/// The record the store keeps for one uuid.
#[derive(Debug, PartialEq, Eq)]
pub struct Connection {
    pub uuid: String,
    pub device_id: u32,
    pub password: String,
    pub endpoint: String,
    /// Set from outside once pushing to `endpoint` has been rejected for good.
    pub forbidden: bool,
    /// When the record was last written by a registration, in seconds since the
    /// Unix epoch.
    pub last_registration: u64,
}

/// What a [`Connection`] holds.
pub struct ConnectionView {
    pub uuid: Seq<char>,
    pub device_id: u32,
    pub password: Seq<char>,
    pub endpoint: Seq<char>,
    pub forbidden: bool,
    pub last_registration: u64,
}

impl View for Connection {
    type V = ConnectionView;

    open spec fn view(&self) -> ConnectionView {
        ConnectionView {
            uuid: self.uuid@,
            device_id: self.device_id,
            password: self.password@,
            endpoint: self.endpoint@,
            forbidden: self.forbidden,
            last_registration: self.last_registration,
        }
    }
}

impl Clone for Connection {
    fn clone(&self) -> (copy: Self)
        ensures
            copy == *self,
    {
        Connection {
            uuid: self.uuid.clone(),
            device_id: self.device_id,
            password: self.password.clone(),
            endpoint: self.endpoint.clone(),
            forbidden: self.forbidden,
            last_registration: self.last_registration,
        }
    }
}

impl ConnectionView {
    /// The record carries the credential pair that `co_data` presents: the
    /// registration is a refresh of it. Otherwise it is a rotation.
    pub open spec fn same_credentials(self, co_data: ConnectionDataView) -> bool {
        self.device_id == co_data.device_id && self.password == co_data.password
    }
}

impl Connection {
    /// Whether `co_data` presents the credential pair of this record.
    pub fn same_credentials(&self, co_data: &ConnectionData) -> (same: bool)
        ensures
            same == self@.same_credentials(co_data@),
    {
        self.device_id == co_data.device_id && self.password == co_data.password
    }
}

/// The record an accepted registration leaves in the store: the submitted
/// fields, not forbidden, registered at `now`.
pub open spec fn accepted_record(co_data: ConnectionDataView, now: u64) -> ConnectionView {
    ConnectionView {
        uuid: co_data.uuid,
        device_id: co_data.device_id,
        password: co_data.password,
        endpoint: co_data.endpoint,
        forbidden: false,
        last_registration: now,
    }
}

/// Builds the record that accepting `co_data` at `now` writes.
pub fn new_connection(co_data: &ConnectionData, now: u64) -> (co: Connection)
    ensures
        co@ == accepted_record(co_data@, now),
{
    Connection {
        uuid: co_data.uuid.clone(),
        device_id: co_data.device_id,
        password: co_data.password.clone(),
        endpoint: co_data.endpoint.clone(),
        forbidden: false,
        last_registration: now,
    }
}

} // verus!
