use vstd::prelude::*;

use crate::server::TapoDeviceType;

verus! {

/// The gateway's configuration: account credentials, the configured device
/// list, and the password that guards the HTTP surface.
///
/// The configuration is read from a JSON file by the surrounding process;
/// the library receives it as plain values.
pub struct Config {
    pub tapo_credentials: TapoCredentials,
    pub devices: Vec<TapoConnectionInfos>,
    pub server_password: String,
}

/// Account credentials used to authenticate against every device.
#[derive(Clone)]
pub struct TapoCredentials {
    pub email: String,
    pub password: String,
}

impl TapoCredentials {
    /// An equal copy of these credentials.
    pub fn duplicate(&self) -> (r: TapoCredentials)
        ensures
            r == *self,
    {
        TapoCredentials { email: self.email.clone(), password: self.password.clone() }
    }
}

/// How to reach one configured device: its unique name, its model, and its
/// network address.
#[derive(Clone)]
pub struct TapoConnectionInfos {
    pub name: String,
    pub device_type: TapoDeviceType,
    pub ip_addr: String,
}

impl TapoConnectionInfos {
    /// An equal copy of this descriptor.
    pub fn duplicate(&self) -> (r: TapoConnectionInfos)
        ensures
            r == *self,
    {
        TapoConnectionInfos {
            name: self.name.clone(),
            device_type: self.device_type,
            ip_addr: self.ip_addr.clone(),
        }
    }
}

} // verus!
