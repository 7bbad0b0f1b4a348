use pharia_kernel::authorization::{
    check_user_request, required_permissions, token_valid_from_response, AlwaysValidClient,
    Authentication, AuthorizationClient, AuthorizationClientError, AuthorizationResponse,
    Permission,
};
use pharia_kernel::logging::TracingContext;

fn answer(status: u16, permissions: Option<Vec<Permission>>) -> AuthorizationResponse {
    AuthorizationResponse::Answer {
        status,
        permissions,
    }
}

#[test]
fn the_kernel_asks_for_kernel_access() {
    assert_eq!(required_permissions(), vec![Permission::KernelAccess]);
    assert_eq!(
        check_user_request("https://iam.example.com", &Authentication::new("t".to_owned())),
        Some((
            "https://iam.example.com/check_user".to_owned(),
            "t".to_owned()
        ))
    );
    assert_eq!(
        check_user_request("https://iam.example.com", &Authentication::none()),
        None
    );
}

#[test]
fn access_is_granted_only_with_the_kernel_permission() {
    assert_eq!(
        token_valid_from_response(answer(200, Some(vec![Permission::KernelAccess]))),
        Ok(true)
    );
    assert_eq!(token_valid_from_response(answer(200, Some(vec![]))), Ok(false));
    assert_eq!(
        token_valid_from_response(answer(
            200,
            Some(vec![Permission::KernelAccess, Permission::KernelAccess])
        )),
        Ok(false)
    );
    assert_eq!(token_valid_from_response(answer(401, None)), Ok(false));
    assert_eq!(token_valid_from_response(answer(403, None)), Ok(false));
}

#[test]
fn other_failures_are_worth_retrying() {
    assert_eq!(
        token_valid_from_response(answer(500, None)),
        Err(AuthorizationClientError::Recoverable)
    );
    assert_eq!(
        token_valid_from_response(answer(404, Some(vec![Permission::KernelAccess]))),
        Err(AuthorizationClientError::Recoverable)
    );
    assert_eq!(
        token_valid_from_response(answer(200, None)),
        Err(AuthorizationClientError::Recoverable)
    );
    assert_eq!(
        token_valid_from_response(AuthorizationResponse::SendFailed),
        Err(AuthorizationClientError::Recoverable)
    );
}

#[test]
fn without_authorization_service_everything_is_granted() {
    let client = AlwaysValidClient;
    assert_eq!(
        client.token_valid(Authentication::none(), TracingContext::current()),
        Ok(true)
    );
    assert_eq!(
        Authentication::new("x".to_owned()).into_maybe_string(),
        Some("x".to_owned())
    );
}

#[test]
fn no_token_no_access() {
    assert_eq!(
        token_valid_from_response(AuthorizationResponse::NotAsked),
        Ok(false)
    );
}

#[test]
fn recoverable_errors_ask_to_try_again() {
    assert_eq!(
        AuthorizationClientError::Recoverable.message(),
        "Failed to check token validity against the authorization service. You should try again later,\n        if the problem persists you may want to contact the operators."
    );
}
