use altarik_launcher::auth::{
    parse_game_token_response, parse_ownership_response, parse_profile_response,
    parse_token_response, parse_xbox_auth_response, parse_xsts_response, port_probe_result,
    classify_xsts_error, new_csrf_state, Authentification, OauthToken, Prompt, ReceivedCode,
};
use altarik_launcher::errors::{LauncherError, XboxRestriction};

#[test]
fn csrf_state_is_sixteen_alphanumerics() {
    let s = new_csrf_state();
    assert_eq!(s.chars().count(), 16);
    assert!(s.chars().all(|c| c.is_ascii_alphanumeric()));
    let t = new_csrf_state();
    assert_eq!(t.chars().count(), 16);
}

#[test]
fn auth_token_carries_port_and_client_id() {
    let token = Authentification::mojang_auth_token(Prompt::SelectAccount, 7878);
    assert_eq!(token.client_id, "89db80b6-8a97-4d00-97e8-48b18f377871");
    assert_eq!(token.redirect, "http://localhost:7878/api/auth/redirect");
}

#[test]
fn create_link_builds_the_exact_authorization_url() {
    let token = Authentification::mojang_auth_token(Prompt::SelectAccount, 7878);
    let state = String::from("AAAABBBBCCCCDDDD");
    let link = Authentification::create_link(&token, &state);
    assert_eq!(
        link,
        "https://login.live.com/oauth20_authorize.srf?client_id=89db80b6-8a97-4d00-97e8-48b18f377871&response_type=code&redirect_uri=http%3A%2F%2Flocalhost%3A7878%2Fapi%2Fauth%2Fredirect&scope=Xboxlive.signin+Xboxlive.offline_access&prompt=select_account&state=AAAABBBBCCCCDDDD"
    );
}

#[test]
fn prompt_modes_serialize_to_their_wire_tags() {
    assert_eq!(Prompt::Login.tag(), "login");
    assert_eq!(Prompt::NoPrompt.tag(), "none");
    assert_eq!(Prompt::Consent.tag(), "consent");
    assert_eq!(Prompt::SelectAccount.tag(), "select_account");
}

#[test]
fn matching_state_passes_the_csrf_check() {
    let received = ReceivedCode { code: String::from("c0de"), state: String::from("S1") };
    assert!(Authentification::verify_csrf(&received, &String::from("S1")).is_ok());
}

#[test]
fn mismatched_state_is_a_csrf_mismatch_never_a_pass() {
    let received = ReceivedCode { code: String::from("c0de"), state: String::from("forged") };
    let r = Authentification::verify_csrf(&received, &String::from("expected"));
    assert!(matches!(r, Err(LauncherError::CsrfMismatch)));
}

#[test]
fn token_request_body_is_the_exact_form_body() {
    let token = OauthToken {
        client_id: String::from("CID"),
        redirect: String::from("http://localhost:7878/api/auth/redirect"),
        prompt: Prompt::Login,
    };
    let code = ReceivedCode { code: String::from("THECODE"), state: String::from("S") };
    let body = Authentification::token_request_body(&token, &code);
    assert_eq!(
        body,
        "client_id=CID&code=THECODE&grant_type=authorization_code&redirect_uri=http://localhost:7878/api/auth/redirect"
    );
}

#[test]
fn rps_ticket_and_identity_token_and_bearer_are_exact() {
    assert_eq!(Authentification::rps_ticket(&String::from("AT")), "d=AT");
    assert_eq!(
        Authentification::identity_token(&String::from("UHS"), &String::from("XSTS")),
        "XBL3.0 x=UHS;XSTS"
    );
    assert_eq!(Authentification::bearer(&String::from("TOK")), "Bearer TOK");
}

#[test]
fn token_response_with_both_fields_parses() {
    let body = r#"{"access_token":"AAA","refresh_token":"RRR"}"#;
    let t = parse_token_response(body).unwrap();
    assert_eq!(t.access_token, "AAA");
    assert_eq!(t.refresh_token, "RRR");
}

#[test]
fn token_response_missing_a_field_is_a_protocol_error() {
    let body = r#"{"access_token":"AAA"}"#;
    assert!(matches!(parse_token_response(body), Err(LauncherError::ProtocolError(_))));
    assert!(matches!(parse_token_response("not json"), Err(LauncherError::ProtocolError(_))));
}

#[test]
fn xbox_auth_response_parses_token_and_user_hash() {
    let body = r#"{"Token":"XBLTOK","DisplayClaims":{"xui":[{"uhs":"HASH1"}]}}"#;
    let x = parse_xbox_auth_response(body).unwrap();
    assert_eq!(x.token, "XBLTOK");
    assert_eq!(x.uhs, "HASH1");
}

#[test]
fn xbox_auth_response_without_claims_is_a_protocol_error() {
    let body = r#"{"Token":"XBLTOK","DisplayClaims":{"xui":[]}}"#;
    assert!(matches!(parse_xbox_auth_response(body), Err(LauncherError::ProtocolError(_))));
}

#[test]
fn xsts_200_hands_out_the_token() {
    let body = r#"{"Token":"XSTSTOK"}"#;
    assert_eq!(parse_xsts_response(200, body).unwrap(), "XSTSTOK");
}

#[test]
fn xsts_200_without_token_is_a_protocol_error() {
    assert!(matches!(parse_xsts_response(200, "{}"), Err(LauncherError::ProtocolError(_))));
}

#[test]
fn xsts_401_sign_up_code_maps_to_sign_up_required() {
    let body = r#"{"XErr":2148916233}"#;
    let r = parse_xsts_response(401, body);
    assert!(matches!(
        r,
        Err(LauncherError::XboxRestriction(XboxRestriction::SignUpRequired))
    ));
}

#[test]
fn xsts_401_child_code_maps_to_child_account() {
    let body = r#"{"XErr":2148916238}"#;
    let r = parse_xsts_response(401, body);
    assert!(matches!(
        r,
        Err(LauncherError::XboxRestriction(XboxRestriction::ChildAccount))
    ));
}

#[test]
fn xsts_401_unknown_code_is_carried_along() {
    let body = r#"{"XErr":42}"#;
    let r = parse_xsts_response(401, body);
    assert!(matches!(
        r,
        Err(LauncherError::XboxRestriction(XboxRestriction::Unknown(42)))
    ));
}

#[test]
fn xsts_error_codes_map_to_their_kinds() {
    assert_eq!(classify_xsts_error(2148916233), XboxRestriction::SignUpRequired);
    assert_eq!(classify_xsts_error(2148916235), XboxRestriction::RegionUnavailable);
    assert_eq!(classify_xsts_error(2148916236), XboxRestriction::AdultVerificationRequired);
    assert_eq!(classify_xsts_error(2148916237), XboxRestriction::AdultVerificationRequired);
    assert_eq!(classify_xsts_error(2148916238), XboxRestriction::ChildAccount);
    assert_eq!(classify_xsts_error(7), XboxRestriction::Unknown(7));
}

#[test]
fn xsts_other_status_is_a_protocol_error() {
    assert!(matches!(parse_xsts_response(503, "{}"), Err(LauncherError::ProtocolError(_))));
}

#[test]
fn restriction_messages_render() {
    assert_eq!(XboxRestriction::SignUpRequired.message(), "Please sign up to xbox");
    assert_eq!(
        XboxRestriction::Unknown(42).message(),
        "An unknown error occured, error code: 42"
    );
}

#[test]
fn game_token_response_parses() {
    let body = r#"{"access_token":"MCTOK"}"#;
    assert_eq!(parse_game_token_response(body).unwrap(), "MCTOK");
    assert!(matches!(parse_game_token_response("{}"), Err(LauncherError::ProtocolError(_))));
}

#[test]
fn ownership_is_a_nonempty_object() {
    assert!(parse_ownership_response(r#"{"items":[]}"#));
    assert!(!parse_ownership_response(r#"{}"#));
    assert!(!parse_ownership_response(r#"[1,2]"#));
    assert!(!parse_ownership_response("not json"));
}

#[test]
fn profile_response_parses_the_profile() {
    let body = r#"{"id":"uuid-1","name":"Steve","skins":[{"id":"s"}],"capes":[]}"#;
    let p = parse_profile_response(body).unwrap();
    assert_eq!(p.id, "uuid-1");
    assert_eq!(p.name, "Steve");
    assert_eq!(p.skins.len(), 1);
    assert_eq!(p.capes.len(), 0);
}

#[test]
fn profile_response_error_field_is_surfaced() {
    let body = r#"{"error":"NOT_FOUND"}"#;
    match parse_profile_response(body) {
        Err(LauncherError::ProtocolError(msg)) => assert_eq!(msg, "NOT_FOUND"),
        other => panic!("expected the error field to be surfaced, got {:?}", other),
    }
}

#[test]
fn entitled_owner_gets_the_profile() {
    let profile = parse_profile_response(
        r#"{"id":"u","name":"N","skins":[],"capes":[]}"#,
    )
    .unwrap();
    let r = altarik_launcher::auth::resolve_entitlement(Ok(true), Ok(profile));
    assert_eq!(r.unwrap().name, "N");
}

#[test]
fn profile_without_purchase_record_still_passes() {
    let profile = parse_profile_response(
        r#"{"id":"u","name":"GamePass","skins":[],"capes":[]}"#,
    )
    .unwrap();
    let r = altarik_launcher::auth::resolve_entitlement(Ok(false), Ok(profile));
    assert_eq!(r.unwrap().name, "GamePass");
}

#[test]
fn no_ownership_and_no_profile_is_not_entitled() {
    let r = altarik_launcher::auth::resolve_entitlement(
        Ok(false),
        Err(LauncherError::ProtocolError(String::from("no profile"))),
    );
    assert!(matches!(r, Err(LauncherError::NotEntitled)));
}

#[test]
fn ownership_check_error_is_surfaced() {
    let r = altarik_launcher::auth::resolve_entitlement(
        Err(LauncherError::ProtocolError(String::from("boom"))),
        Err(LauncherError::ProtocolError(String::from("no profile"))),
    );
    assert!(matches!(r, Err(LauncherError::ProtocolError(_))));
}

#[test]
fn port_probe_maps_exhaustion_to_no_port_available() {
    assert_eq!(port_probe_result(Some(8080)).unwrap(), 8080);
    assert!(matches!(port_probe_result(None), Err(LauncherError::NoPortAvailable)));
}

#[test]
fn launcher_error_messages_render() {
    assert_eq!(LauncherError::CsrfMismatch.message(), "CSRF check fail");
    assert_eq!(LauncherError::NotEntitled.message(), "Not a owner of a minecraft copy");
    assert_eq!(
        LauncherError::IntegrityViolation {
            artifact: String::from("guava"),
            expected: String::from("2222"),
            actual: String::from("1111"),
        }
        .message(),
        "Sha1 1111 of guava is invalid, a malicious file might be present on the remote server, should be 2222"
    );
    assert_eq!(
        LauncherError::ProtocolError(String::from("odd shape")).message(),
        "odd shape"
    );
    assert_eq!(
        LauncherError::FilesystemError(String::from("disk full")).message(),
        "disk full"
    );
}
