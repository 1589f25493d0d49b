use router_control::error::Error;
use router_control::service::netlink::NetlinkError;

#[test]
fn every_kind_has_its_message() {
    assert_eq!(Error::UnexpectedError.message(), "Unexpected error happened");
    assert_eq!(
        Error::RouterClientIdentificationFailed.message(),
        "Failed to identify the router client"
    );
    assert_eq!(Error::SessionCooldown.message(), "Session creation is on cooldown");
    assert_eq!(Error::IncorrectPassword.message(), "Incorrect credentials");
    assert_eq!(Error::Unauthenticated.message(), "User is not authenticated");
    assert_eq!(Error::SessionExpired.message(), "Session has expired");
    assert_eq!(Error::InterfaceNotFound.message(), "Interface not found");
    assert_eq!(Error::InvalidTarget.message(), "Requested state cannot be set");
}

#[test]
fn every_kind_has_its_status() {
    assert_eq!(Error::UnexpectedError.status_code(), 500);
    assert_eq!(Error::RouterClientIdentificationFailed.status_code(), 500);
    assert_eq!(Error::SessionCooldown.status_code(), 429);
    assert_eq!(Error::IncorrectPassword.status_code(), 401);
    assert_eq!(Error::Unauthenticated.status_code(), 401);
    assert_eq!(Error::SessionExpired.status_code(), 401);
    assert_eq!(Error::InterfaceNotFound.status_code(), 404);
    assert_eq!(Error::InvalidTarget.status_code(), 400);
}

#[test]
fn engine_failures_keep_their_kind() {
    assert_eq!(Error::from(NetlinkError::NotFound), Error::InterfaceNotFound);
    assert_eq!(Error::from(NetlinkError::InvalidTarget), Error::InvalidTarget);
    assert_eq!(Error::from(NetlinkError::ProtocolFailure), Error::UnexpectedError);
    assert_eq!(Error::from(NetlinkError::ConfirmationMismatch), Error::UnexpectedError);
}
