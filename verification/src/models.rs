//! Data models for the credential flow: operator secrets, the two token
//! responses, and the error taxonomy.
use vstd::prelude::*;
use crate::strutil::{i32_to_string, int_str};

verus! {

/// A user's Verizon account secrets required for API use.
///
/// Supplied by the operator out of band and immutable for the process
/// lifetime.
#[derive(Debug, Clone)]
pub struct Secrets {
    pub public_key: String,
    pub private_key: String,
    pub username: String,
    pub password: String,
    pub account_name: String,
}

/// The deserialized JSON returned from an OAuth2 access-token request.
#[derive(Debug, Clone)]
pub struct LoginResponse {
    /// The OAuth2 access token.
    pub access_token: String,
    /// The OAuth2 access token scope.
    pub scope: String,
    /// The OAuth2 access token type.
    pub token_type: String,
    /// The OAuth2 access token TTL in seconds.
    pub expires_in: i32,
}

impl Default for LoginResponse {
    /// An empty response with a zero TTL.
    fn default() -> (r: LoginResponse)
        ensures
            r.access_token@ == Seq::<char>::empty(),
            r.scope@ == Seq::<char>::empty(),
            r.token_type@ == Seq::<char>::empty(),
            r.expires_in == 0,
    {
        LoginResponse {
            access_token: String::new(),
            scope: String::new(),
            token_type: String::new(),
            expires_in: 0,
        }
    }
}

/// The rendered form of a login response, one field per line.
pub open spec fn login_report_spec(r: &LoginResponse) -> Seq<char> {
    "Access Token: "@ + r.access_token@ + "\nExpires: "@ + int_str(r.expires_in as int)
        + "\nScope: "@ + r.scope@ + "\nToken Type: "@ + r.token_type@
}

impl LoginResponse {
    /// Renders the response for printing, one field per line.
    pub fn report(&self) -> (r: String)
        ensures
            r@ == login_report_spec(self),
    {
        let mut out = String::new();
        out.append("Access Token: ");
        out.append(self.access_token.as_str());
        out.append("\nExpires: ");
        let expires = i32_to_string(self.expires_in);
        out.append(expires.as_str());
        out.append("\nScope: ");
        out.append(self.scope.as_str());
        out.append("\nToken Type: ");
        out.append(self.token_type.as_str());
        assert(out@ =~= login_report_spec(self));
        out
    }
}

/// The JSON body sent to the session-login endpoint.
#[derive(Debug, Clone)]
pub struct SessionRequestBody {
    pub username: String,
    pub password: String,
}

/// A session token and its TTL.
#[derive(Debug, Clone)]
pub struct Session {
    /// The session token.
    pub session_token: String,
    /// The session token TTL in seconds.  The token remains valid as long as
    /// the application continues to use it, but expires after 20 minutes of
    /// inactivity.
    pub expires_in: i32,
}

impl Default for Session {
    /// An empty session with the documented 20-minute inactivity TTL.
    fn default() -> (r: Session)
        ensures
            r.session_token@ == Seq::<char>::empty(),
            r.expires_in == 1200,
    {
        Session { session_token: String::new(), expires_in: 1200 }
    }
}

/// The rendered form of a session, one field per line.
pub open spec fn session_report_spec(s: &Session) -> Seq<char> {
    "Session Token: "@ + s.session_token@ + "\nExpires: "@ + int_str(s.expires_in as int)
}

impl Session {
    /// Renders the session for printing, one field per line.
    pub fn report(&self) -> (r: String)
        ensures
            r@ == session_report_spec(self),
    {
        let mut out = String::new();
        out.append("Session Token: ");
        out.append(self.session_token.as_str());
        out.append("\nExpires: ");
        let expires = i32_to_string(self.expires_in);
        out.append(expires.as_str());
        assert(out@ =~= session_report_spec(self));
        out
    }
}

/// The structured error body returned by the OAuth2 identity endpoint.
#[derive(Debug, Clone)]
pub struct CredentialError {
    /// ThingSpace error description.
    pub error_description: String,
    /// ThingSpace error reason.
    pub error: String,
}

/// The structured error body returned by the M2M endpoints
/// (`errorCode` / `errorMessage` on the wire).
#[derive(Debug, Clone)]
pub struct ThingSpaceError {
    /// ThingSpace error code.
    pub error_code: String,
    /// ThingSpace error message.
    pub error_message: String,
}

/// Everything that can go wrong in an SDK operation.
///
/// Nothing is retried automatically; every failure is surfaced to the
/// caller.
#[derive(Debug)]
pub enum Error {
    /// The network call itself failed; the message comes from the HTTP
    /// client.
    Transport(String),
    /// The identity endpoint answered 400..599 with a structured error body.
    Credential(CredentialError),
    /// An M2M endpoint answered 400..599 with a structured error body.
    ThingSpace(ThingSpaceError),
    /// A response body did not match the JSON shape this SDK expects; the
    /// offending body is kept verbatim.
    Decode(String),
    /// A session token was requested while no access token is cached.
    MissingAccessToken,
}

/// The rendered form of an error: a small JSON-style object naming the
/// error family and its details.
pub open spec fn error_message_spec(e: &Error) -> Seq<char> {
    match e {
        Error::Transport(m) => "{ \"TransportError\": { "@ + m@ + " } }"@,
        Error::Credential(c) => "{ \"CredentialError\": { \""@ + c.error@ + "\": \""@
            + c.error_description@ + "\" } }"@,
        Error::ThingSpace(t) => "{ \"ThingSpaceError\": { \""@ + t.error_code@ + "\": \""@
            + t.error_message@ + "\" } }"@,
        Error::Decode(b) => "{ \"DecodeError\": { "@ + b@ + " } }"@,
        Error::MissingAccessToken => "{ \"MissingAccessTokenError\": { } }"@,
    }
}

impl Error {
    /// Renders the error for logging, naming the error family and its
    /// details.
    pub fn message(&self) -> (r: String)
        ensures
            r@ == error_message_spec(self),
    {
        let mut out = String::new();
        match self {
            Error::Transport(m) => {
                out.append("{ \"TransportError\": { ");
                out.append(m.as_str());
                out.append(" } }");
                assert(out@ =~= error_message_spec(self));
            }
            Error::Credential(c) => {
                out.append("{ \"CredentialError\": { \"");
                out.append(c.error.as_str());
                out.append("\": \"");
                out.append(c.error_description.as_str());
                out.append("\" } }");
                assert(out@ =~= error_message_spec(self));
            }
            Error::ThingSpace(t) => {
                out.append("{ \"ThingSpaceError\": { \"");
                out.append(t.error_code.as_str());
                out.append("\": \"");
                out.append(t.error_message.as_str());
                out.append("\" } }");
                assert(out@ =~= error_message_spec(self));
            }
            Error::Decode(b) => {
                out.append("{ \"DecodeError\": { ");
                out.append(b.as_str());
                out.append(" } }");
                assert(out@ =~= error_message_spec(self));
            }
            Error::MissingAccessToken => {
                out.append("{ \"MissingAccessTokenError\": { } }");
                assert(out@ =~= error_message_spec(self));
            }
        }
        out
    }
}

/// The name of a callback service that can be subscribed to.
#[derive(Clone, Copy, Debug, PartialEq, Eq, Structural)]
pub enum ServiceName {
    /// Callback messages sent when trigger conditions are met.
    AlertService,
    /// Asynchronous responses for requests that change a device's state and
    /// metadata.
    CarrierService,
    /// Asynchronous responses containing current device PRL values.
    DevicePRLInformation,
    /// Asynchronous responses for requests that change a device's profile
    /// status.
    DeviceProfileService,
    /// Asynchronous responses to device availability and upload requests.
    DeviceService,
    /// Asynchronous responses about suspended devices.
    DeviceSuspensionStatus,
    /// Asynchronous responses about device usage.
    DeviceUsage,
    /// Asynchronous responses for Service Capabilities Exposure Function
    /// device registration and state notifications.
    DiagnosticsService,
    /// Device-originated SMS contents and SMS delivery notifications.
    EnhancedConnectivityService,
    /// Provisioning changes made outside of the ThingSpace APIs.
    ExternalProvisioningChanges,
    /// Notifications from the ThingSpace Intelligence service.
    IntelligenceService,
    /// Second asynchronous responses for state changes, and Non-IP Data
    /// Delivery messages in both directions.
    NiddService,
    /// Changes to promotional codes.
    PromoChanges,
    /// Notice that a suspended device will auto-resume soon.
    ResumeTrackingNotification,
    /// Confirmation that an SMS message was received by the device.
    SMSDeliveryConfirmation,
    /// Asynchronous responses from go-to-state requests.
    StateService,
    /// Notification that data will be partially or completely throttled.
    SubscriptionNotificationService,
    Extended,
    DevicePromoUsage,
    VIPCallbackService,
    PwnService,
    QoS,
    NetworkEventService,
}

/// The wire name of each callback service.
pub open spec fn service_name_spec(s: ServiceName) -> Seq<char> {
    match s {
        ServiceName::AlertService => "AlertService"@,
        ServiceName::CarrierService => "CarrierService"@,
        ServiceName::DevicePRLInformation => "DevicePRLInformation"@,
        ServiceName::DeviceProfileService => "DeviceProfileService"@,
        ServiceName::DeviceService => "DeviceService"@,
        ServiceName::DeviceSuspensionStatus => "DeviceSuspensionStatus"@,
        ServiceName::DeviceUsage => "DeviceUsage"@,
        ServiceName::DiagnosticsService => "DiagnosticsService"@,
        ServiceName::EnhancedConnectivityService => "EnhancedConnectivityService"@,
        ServiceName::ExternalProvisioningChanges => "ExternalProvisioningChanges"@,
        ServiceName::IntelligenceService => "IntelligenceService"@,
        ServiceName::NiddService => "NiddService"@,
        ServiceName::PromoChanges => "PromoChanges"@,
        ServiceName::ResumeTrackingNotification => "ResumeTrackingNotification"@,
        ServiceName::SMSDeliveryConfirmation => "SMSDeliveryConfirmation"@,
        ServiceName::StateService => "StateService"@,
        ServiceName::SubscriptionNotificationService => "SubscriptionNotificationService"@,
        ServiceName::Extended => "Extended"@,
        ServiceName::DevicePromoUsage => "DevicePromoUsage"@,
        ServiceName::VIPCallbackService => "VIPCallbackService"@,
        ServiceName::PwnService => "PwnService"@,
        ServiceName::QoS => "QoS"@,
        ServiceName::NetworkEventService => "NetworkEventService"@,
    }
}

impl ServiceName {
    /// The wire name of the callback service.
    pub fn as_str(&self) -> (r: &'static str)
        ensures
            r@ == service_name_spec(*self),
    {
        match self {
            ServiceName::AlertService => "AlertService",
            ServiceName::CarrierService => "CarrierService",
            ServiceName::DevicePRLInformation => "DevicePRLInformation",
            ServiceName::DeviceProfileService => "DeviceProfileService",
            ServiceName::DeviceService => "DeviceService",
            ServiceName::DeviceSuspensionStatus => "DeviceSuspensionStatus",
            ServiceName::DeviceUsage => "DeviceUsage",
            ServiceName::DiagnosticsService => "DiagnosticsService",
            ServiceName::EnhancedConnectivityService => "EnhancedConnectivityService",
            ServiceName::ExternalProvisioningChanges => "ExternalProvisioningChanges",
            ServiceName::IntelligenceService => "IntelligenceService",
            ServiceName::NiddService => "NiddService",
            ServiceName::PromoChanges => "PromoChanges",
            ServiceName::ResumeTrackingNotification => "ResumeTrackingNotification",
            ServiceName::SMSDeliveryConfirmation => "SMSDeliveryConfirmation",
            ServiceName::StateService => "StateService",
            ServiceName::SubscriptionNotificationService => "SubscriptionNotificationService",
            ServiceName::Extended => "Extended",
            ServiceName::DevicePromoUsage => "DevicePromoUsage",
            ServiceName::VIPCallbackService => "VIPCallbackService",
            ServiceName::PwnService => "PwnService",
            ServiceName::QoS => "QoS",
            ServiceName::NetworkEventService => "NetworkEventService",
        }
    }
}

} // verus!
