use bsr_bot::router::{announcement, classify_request, reply_for, route, validate_url, ChatReply,
    RouteOutcome};

#[test]
fn no_prefix_means_no_dispatch() {
    assert!(matches!(route("user", "hello there"), RouteOutcome::Ignored));
    assert!(matches!(route("user", "bsr AbCd12"), RouteOutcome::Ignored));
    assert!(matches!(route("user", ""), RouteOutcome::Ignored));
    assert!(matches!(reply_for(&RouteOutcome::Ignored), None));
}

#[test]
fn unknown_verb_is_ignored_silently() {
    assert!(matches!(route("user", "!dance"), RouteOutcome::Ignored));
    assert!(matches!(route("user", "!pingpong"), RouteOutcome::Ignored));
}

#[test]
fn bare_marker_is_ignored() {
    assert!(matches!(route("user", "!"), RouteOutcome::Ignored));
    assert!(matches!(route("user", "!   "), RouteOutcome::Ignored));
}

#[test]
fn ping_replies_pong() {
    let o = route("user", "!ping");
    assert!(matches!(o, RouteOutcome::Pong));
    match reply_for(&o) {
        Some(ChatReply::Addressed(t)) => assert_eq!(t, "Pong!"),
        other => panic!("unexpected reply: {:?}", other),
    }
}

#[test]
fn ping_survives_extra_whitespace() {
    assert!(matches!(route("user", "!  ping  "), RouteOutcome::Pong));
}

#[test]
fn quit_denied_for_unauthorized_author() {
    let o = route("someone", "!quit");
    assert!(matches!(o, RouteOutcome::QuitDenied));
    match reply_for(&o) {
        Some(ChatReply::Addressed(t)) => {
            assert_eq!(t, "You do not have permissions to run this command.")
        }
        other => panic!("unexpected reply: {:?}", other),
    }
}

#[test]
fn quit_granted_only_for_authorized_author() {
    let o = route("dice2x5", "!quit");
    assert!(matches!(o, RouteOutcome::QuitGranted));
    match reply_for(&o) {
        Some(ChatReply::Broadcast(t)) => assert_eq!(t, "Shutting down..."),
        other => panic!("unexpected reply: {:?}", other),
    }
}

#[test]
fn bsr_without_argument_replies_usage() {
    let o = route("user", "!bsr");
    assert!(matches!(o, RouteOutcome::BsrUsage));
    match reply_for(&o) {
        Some(ChatReply::Addressed(t)) => {
            assert_eq!(t, "You must provide a song ID or URL from https://bsaber.com.")
        }
        other => panic!("unexpected reply: {:?}", other),
    }
}

#[test]
fn bsr_plain_identifier_is_accepted() {
    match route("user", "!bsr AbCd12") {
        RouteOutcome::BsrRequest(id) => assert_eq!(id, "AbCd12"),
        other => panic!("unexpected outcome: {:?}", other),
    }
}

#[test]
fn bsr_non_alphanumeric_identifier_is_rejected() {
    let o = route("user", "!bsr ab_cd");
    assert!(matches!(o, RouteOutcome::BsrInvalidId));
    match reply_for(&o) {
        Some(ChatReply::Addressed(t)) => assert_eq!(t, "Invalid bsaber song ID."),
        other => panic!("unexpected reply: {:?}", other),
    }
    assert!(matches!(route("user", "!bsr a!b"), RouteOutcome::BsrInvalidId));
    assert!(matches!(classify_request("-"), RouteOutcome::BsrInvalidId));
}

#[test]
fn bsr_url_resolves_identifier() {
    match route("user", "!bsr https://bsaber.com/songs/XYZ/") {
        RouteOutcome::BsrRequest(id) => assert_eq!(id, "XYZ"),
        other => panic!("unexpected outcome: {:?}", other),
    }
}

#[test]
fn bsr_url_without_trailing_slash_resolves_identifier() {
    match route("user", "!bsr https://bsaber.com/songs/XYZ") {
        RouteOutcome::BsrRequest(id) => assert_eq!(id, "XYZ"),
        other => panic!("unexpected outcome: {:?}", other),
    }
}

#[test]
fn bsr_url_and_direct_id_resolve_identically() {
    let from_url = match route("user", "!bsr https://bsaber.com/songs/XYZ/") {
        RouteOutcome::BsrRequest(id) => id,
        other => panic!("unexpected outcome: {:?}", other),
    };
    let direct = match route("user", "!bsr XYZ") {
        RouteOutcome::BsrRequest(id) => id,
        other => panic!("unexpected outcome: {:?}", other),
    };
    assert_eq!(from_url, direct);
}

#[test]
fn bsr_url_wrong_host_is_rejected() {
    let o = route("user", "!bsr https://example.com/songs/XYZ/");
    assert!(matches!(o, RouteOutcome::BsrInvalidUrl));
    match reply_for(&o) {
        Some(ChatReply::Addressed(t)) => assert_eq!(t, "Invalid bsaber URL."),
        other => panic!("unexpected reply: {:?}", other),
    }
}

#[test]
fn bsr_url_wrong_segment_count_is_rejected() {
    assert!(matches!(
        route("user", "!bsr https://bsaber.com/XYZ"),
        RouteOutcome::BsrInvalidUrl
    ));
    assert!(matches!(
        route("user", "!bsr https://bsaber.com/songs/a/b"),
        RouteOutcome::BsrInvalidUrl
    ));
    assert!(matches!(
        route("user", "!bsr https://bsaber.com/songs/"),
        RouteOutcome::BsrInvalidUrl
    ));
}

#[test]
fn validate_url_extracts_exact_identifier() {
    assert_eq!(
        validate_url("https://bsaber.com/songs/AbCd12/").as_deref(),
        Some("AbCd12")
    );
    assert_eq!(
        validate_url("https://bsaber.com/songs/AbCd12").as_deref(),
        Some("AbCd12")
    );
    assert_eq!(validate_url("https://bsaber.com/maps/AbCd12"), None);
    assert_eq!(validate_url("https://bsaber.com/songs//AbCd12"), None);
}

#[test]
fn announcement_names_author_song_and_url() {
    assert_eq!(
        announcement("user", "Song", "https://x/file.zip"),
        "@user requested Song (https://x/file.zip)"
    );
}
