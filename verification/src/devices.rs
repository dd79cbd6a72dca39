use vstd::prelude::*;

use crate::config::{TapoConnectionInfos, TapoCredentials};

verus! {

/// The connection a managed device holds to its physical counterpart:
/// either nothing yet, or one live authenticated driver session.
#[derive(Clone, Copy, Debug, PartialEq, Eq, Structural)]
pub enum ConnState {
    Disconnected,
    Connected,
}

/// What an access to a device's connection has to do: reuse the cached
/// session, or perform a driver login first.
#[derive(Clone, Copy, Debug, PartialEq, Eq, Structural)]
pub enum ConnAccess {
    Reuse,
    Login,
}

/// One serialized access to a device's connection cell. The device's
/// exclusivity guard linearizes accesses, so a run of concurrent callers is
/// a sequence of these steps. A login is attempted only while disconnected;
/// a failed login is never cached, so the next access retries from scratch.
pub open spec fn conn_step(s: ConnState, login_ok: bool) -> (ConnState, nat) {
    match s {
        ConnState::Connected => (ConnState::Connected, 0),
        ConnState::Disconnected => (
            if login_ok {
                ConnState::Connected
            } else {
                ConnState::Disconnected
            },
            1,
        ),
    }
}

/// Runs a sequence of serialized accesses from a starting state;
/// `outcomes[i]` is whether the login of access `i` would succeed. Returns
/// the final state and how many logins were performed.
pub open spec fn conn_run(s: ConnState, outcomes: Seq<bool>) -> (ConnState, nat)
    decreases outcomes.len(),
{
    if outcomes.len() == 0 {
        (s, 0)
    } else {
        let first = conn_step(s, outcomes[0]);
        let rest = conn_run(first.0, outcomes.skip(1));
        (rest.0, first.1 + rest.1)
    }
}

/// However many callers access one device with no cached connection, exactly
/// one login occurs, provided logins succeed: the first access logs in and
/// caches the session, and every later access reuses it.
pub proof fn lemma_single_login(outcomes: Seq<bool>)
    requires
        outcomes.len() >= 1,
        forall|i: int| 0 <= i < outcomes.len() ==> outcomes[i],
    ensures
        conn_run(ConnState::Disconnected, outcomes).1 == 1,
        conn_run(ConnState::Disconnected, outcomes).0 == ConnState::Connected,
    decreases outcomes.len(),
{
    lemma_connected_stays_connected(outcomes.skip(1));
}

/// Once a connection is cached, no further access performs a login: the
/// cached session is reused and never evicted by the accesses themselves.
pub proof fn lemma_connected_stays_connected(outcomes: Seq<bool>)
    ensures
        conn_run(ConnState::Connected, outcomes).1 == 0,
        conn_run(ConnState::Connected, outcomes).0 == ConnState::Connected,
    decreases outcomes.len(),
{
    if outcomes.len() > 0 {
        lemma_connected_stays_connected(outcomes.skip(1));
    }
}

/// The text of a failed connection establishment, naming the device and
/// passing the driver's error through.
pub open spec fn spec_connect_error_message(
    dt: crate::server::actions::TapoDeviceType,
    name: Seq<char>,
    err: Seq<char>,
) -> Seq<char> {
    "Failed to connect to "@ + dt.spec_model_name() + " "@ + dt.spec_type_description() + " '"@
        + name + "': "@ + err
}

/// Builds the text of a failed connection establishment; mirrors
/// `spec_connect_error_message`.
pub fn connect_error_message(
    dt: crate::server::actions::TapoDeviceType,
    name: &str,
    err: &str,
) -> (r: String)
    ensures
        r@ == spec_connect_error_message(dt, name@, err@),
{
    let r = String::from_str("Failed to connect to ").concat(dt.model_name()).concat(" ").concat(
        dt.type_description(),
    ).concat(" '").concat(name).concat("': ").concat(err);
    proof {
        assert(r@ =~= spec_connect_error_message(dt, name@, err@));
    }
    r
}

/// The gateway's stateful wrapper around one physical device: how to reach
/// it, the account to authenticate with, and the at-most-one live connection
/// it owns.
///
/// Concurrency discipline: connection establishment is serialized by an
/// exclusivity guard held by the surrounding process, so at most one
/// establishment attempt is in flight per device at any time; many callers
/// may share a cached connection for reads.
pub struct TapoDevice {
    conn_infos: TapoConnectionInfos,
    credentials: TapoCredentials,
    conn: ConnState,
}

impl TapoDevice {
    pub closed spec fn spec_conn_infos(&self) -> TapoConnectionInfos {
        self.conn_infos
    }

    pub closed spec fn spec_credentials(&self) -> TapoCredentials {
        self.credentials
    }

    pub closed spec fn spec_conn(&self) -> ConnState {
        self.conn
    }

    /// A freshly created device is disconnected: registry construction never
    /// blocks on device network I/O.
    pub fn new(conn_infos: TapoConnectionInfos, credentials: TapoCredentials) -> (r: Self)
        ensures
            r.spec_conn_infos() == conn_infos,
            r.spec_credentials() == credentials,
            r.spec_conn() == ConnState::Disconnected,
    {
        Self { conn_infos, credentials, conn: ConnState::Disconnected }
    }

    pub fn conn_infos(&self) -> (r: &TapoConnectionInfos)
        ensures
            *r == self.spec_conn_infos(),
    {
        &self.conn_infos
    }

    pub fn credentials(&self) -> (r: &TapoCredentials)
        ensures
            *r == self.spec_credentials(),
    {
        &self.credentials
    }

    /// An equal copy of this device, connection state included.
    pub fn clone_device(&self) -> (r: TapoDevice)
        ensures
            r == *self,
    {
        TapoDevice {
            conn_infos: self.conn_infos.duplicate(),
            credentials: self.credentials.duplicate(),
            conn: self.conn,
        }
    }

    /// Decides what an access must do at its linearization point: reuse the
    /// cached connection, or log in first. The same decision is taken on the
    /// shared path and again under the exclusivity guard, so a caller that
    /// lost the race to a concurrent establisher reuses the winner's session
    /// instead of logging in again.
    pub fn access_plan(&self) -> (r: ConnAccess)
        ensures
            r == ConnAccess::Reuse <==> self.spec_conn() == ConnState::Connected,
            r == ConnAccess::Login <==> self.spec_conn() == ConnState::Disconnected,
    {
        match self.conn {
            ConnState::Connected => ConnAccess::Reuse,
            ConnState::Disconnected => ConnAccess::Login,
        }
    }

    /// Records the outcome of a driver login performed under the exclusivity
    /// guard. Only a successful login is cached; a failure leaves the device
    /// disconnected, so the next access retries from scratch.
    pub fn record_login(&mut self, success: bool)
        requires
            old(self).spec_conn() == ConnState::Disconnected,
        ensures
            final(self).spec_conn() == conn_step(old(self).spec_conn(), success).0,
            final(self).spec_conn_infos() == old(self).spec_conn_infos(),
            final(self).spec_credentials() == old(self).spec_credentials(),
    {
        if success {
            self.conn = ConnState::Connected;
        }
    }

    /// Records the outcome of asking the driver to refresh the cached
    /// session. The error, if any, is surfaced to the caller and the
    /// connection is left as it was: a refresh failure does not evict it.
    pub fn record_refresh(&mut self, success: bool)
        requires
            old(self).spec_conn() == ConnState::Connected,
        ensures
            *final(self) == *old(self),
    {
    }
}

} // verus!
