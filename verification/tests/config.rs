use bento::app_error::{AppError, ServerError};
use bento::clock::{Timestamp, CLOCK_MAX_NANOS, CLOCK_MIN_NANOS, SESSION_DURATION_NANOS};
use bento::config::{default_address, default_port, port_text, Server};
use bento::cookies::{
    build_session_cookie, cleared_session_cookie, session_cookie, SESSION_COOKIE_NAME,
};
use bento::error::{AuthError, ProjectError};

#[test]
fn default_server_listens_everywhere_on_8000() {
    assert_eq!(default_address(), "0.0.0.0");
    assert_eq!(default_port(), 8000);
    let server = Server::default();
    assert_eq!(server.address, "0.0.0.0");
    assert_eq!(server.port, 8000);
    assert_eq!(server.socket_addr(), "0.0.0.0:8000");
}

#[test]
fn socket_address_joins_host_and_port() {
    let server = Server { address: "127.0.0.1".to_string(), port: 80 };
    assert_eq!(server.socket_addr(), "127.0.0.1:80");
    let server = Server { address: "::1".to_string(), port: 65535 };
    assert_eq!(server.socket_addr(), "::1:65535");
    let server = Server { address: String::new(), port: 0 };
    assert_eq!(server.socket_addr(), ":0");
}

#[test]
fn ports_are_written_in_decimal() {
    assert_eq!(port_text(0), "0");
    assert_eq!(port_text(7), "7");
    assert_eq!(port_text(10), "10");
    assert_eq!(port_text(409), "409");
    assert_eq!(port_text(8000), "8000");
    assert_eq!(port_text(65535), "65535");
    for port in [1u16, 99, 100, 1234, 9999, 10000, 54321] {
        assert_eq!(port_text(port), port.to_string());
    }
}

#[test]
fn auth_errors_render_their_messages() {
    assert_eq!(AuthError::UserExists.message(), "User already exists");
    assert_eq!(AuthError::NotFound.message(), "User not found");
    assert_eq!(AuthError::InvalidSession.message(), "Invalid session");
    assert_eq!(
        AuthError::SessionLimitReached.message(),
        "Maximum active sessions reached"
    );
    assert_eq!(
        AuthError::Internal("disk full".to_string()).message(),
        "Internal error: disk full"
    );
    assert!(AuthError::NotFound.is_recoverable());
    assert!(!AuthError::Internal(String::new()).is_recoverable());
}

#[test]
fn project_errors_render_their_messages() {
    assert_eq!(ProjectError::NotFound.message(), "Project not found");
    assert_eq!(
        ProjectError::AlreadyExists.message(),
        "Project with this name already exists"
    );
    assert_eq!(
        ProjectError::Unauthorized.message(),
        "Unauthorized access to project"
    );
    assert_eq!(
        ProjectError::Internal("x".to_string()).message(),
        "Internal error: x"
    );
}

#[test]
fn server_errors_render_their_messages() {
    assert_eq!(ServerError::InvalidCreds.message(), "Invalid credentials provided");
    assert_eq!(ServerError::RequestError.message(), "Client request error");
    assert_eq!(ServerError::Unknown.message(), "An unknown error occurred");
}

#[test]
fn app_error_keeps_its_message() {
    let e = AppError::new("Not authenticated");
    assert_eq!(e.message(), "Not authenticated");
    assert_eq!(e.clone().message(), "Not authenticated");
}

#[test]
fn app_error_has_one_notice_per_kind_of_failure() {
    assert_eq!(
        AppError::from_auth_error(&AuthError::NotFound).message(),
        "User not found"
    );
    assert_eq!(
        AppError::from_auth_error(&AuthError::InvalidSession).message(),
        "Your session has expired. Please log in again."
    );
    assert_eq!(
        AppError::from_auth_error(&AuthError::UserExists).message(),
        "A user with this username already exists"
    );
    assert_eq!(
        AppError::from_auth_error(&AuthError::SessionLimitReached).message(),
        "Maximum number of active sessions reached. Please log out of another device."
    );
    assert_eq!(
        AppError::from_auth_error(&AuthError::Internal("secret detail".to_string())).message(),
        "An internal error occurred. Please try again later."
    );
    assert_eq!(
        AppError::from_project_error(&ProjectError::NotFound).message(),
        "Project not found"
    );
    assert_eq!(
        AppError::from_project_error(&ProjectError::AlreadyExists).message(),
        "A project with this name already exists"
    );
    assert_eq!(
        AppError::from_project_error(&ProjectError::Unauthorized).message(),
        "You don't have permission to access this project"
    );
    assert_eq!(
        AppError::from_project_error(&ProjectError::Internal("x".to_string())).message(),
        "An internal error occurred. Please try again later."
    );
    assert_eq!(
        AppError::from_server_error(ServerError::InvalidCreds).message(),
        "Invalid username or password"
    );
    assert_eq!(
        AppError::from_server_error(ServerError::RequestError).message(),
        "Request error occurred"
    );
    assert_eq!(
        AppError::from_server_error(ServerError::Unknown).message(),
        "An unknown error occurred"
    );
}

#[test]
fn a_session_lasts_one_hour() {
    assert_eq!(SESSION_DURATION_NANOS, 60 * 60 * 1_000_000_000);
    assert_eq!(Timestamp(5).plus_session_duration(), Timestamp(3_600_000_000_005));
    assert_eq!(Timestamp(-3_600_000_000_000).plus_session_duration(), Timestamp(0));
    assert!(Timestamp(0).starts_session());
    assert!(Timestamp(i128::MAX - 3_600_000_000_000).starts_session());
    assert!(!Timestamp(i128::MAX - 3_599_999_999_999).starts_session());
    assert!(Timestamp(2).later_than(Timestamp(1)));
    assert!(!Timestamp(1).later_than(Timestamp(1)));
    assert!(!Timestamp(0).later_than(Timestamp(1)));
}

#[test]
fn the_clock_reports_the_present() {
    let now = Timestamp::now();
    assert!(CLOCK_MIN_NANOS <= now.0 && now.0 <= CLOCK_MAX_NANOS);
    // After the first day of 2020.
    assert!(now.0 > 1_577_836_800_000_000_000);
    let later = Timestamp::now();
    assert!(later.0 >= now.0);
}

#[test]
fn session_cookie_has_its_attributes() {
    assert_eq!(SESSION_COOKIE_NAME, "session_id");
    let cookie = session_cookie("token", true);
    assert_eq!(cookie.name, "session_id");
    assert_eq!(cookie.value, "token");
    assert_eq!(cookie.path, "/");
    assert!(cookie.http_only);
    assert!(cookie.same_site_lax);
    assert!(cookie.secure);
    assert_eq!(cookie.max_age_seconds, None);
    assert!(!session_cookie("token", false).secure);
    let cleared = cleared_session_cookie(false);
    assert_eq!(cleared.name, "session_id");
    assert_eq!(cleared.value, "");
    assert_eq!(cleared.max_age_seconds, Some(0));
    assert!(cleared.http_only);
    assert_eq!(build_session_cookie("v", Some(60), true).max_age_seconds, Some(60));
}
