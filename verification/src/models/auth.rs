//! Authentication of a device through a user code.
use vstd::prelude::*;

verus! {

/// Type returned by API after initialising the authentication proceedure
#[derive(Debug, Clone)]
pub struct GetAuthDeviceResponse {
    /// The code the CLI will use to fetch data if user has logged in
    pub device_code: String,
    /// A simple code that user will type in once logged in
    pub user_code: String,
    /// The interval, in seconds, with which the CLI will poll if user completed authentication
    pub interval: u32,
}

/// The request when polling if user has completed authentication
#[derive(Debug, Clone)]
pub struct PostAuthDevicePollRequest {
    /// The code the CLI will use to fetch data if user has logged in
    pub device_code: String,
}

/// The response recieved when user completed authenetication
#[derive(Debug, Clone)]
pub struct PostAuthDevicePollResponse {
    /// The user_id of the user
    pub user_id: String,
}

} // verus!
