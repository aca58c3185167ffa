use lychee::status::Status;

#[test]
fn classifier_success_codes() {
    assert!(matches!(Status::new(200, &None), Status::Success(200)));
    assert!(matches!(Status::new(204, &None), Status::Success(204)));
    assert!(matches!(Status::new(299, &None), Status::Success(299)));
}

#[test]
fn classifier_redirection_codes() {
    assert!(matches!(Status::new(301, &None), Status::Redirected(301)));
    assert!(matches!(Status::new(308, &None), Status::Redirected(308)));
}

#[test]
fn classifier_error_codes_keep_the_code() {
    match Status::new(404, &None) {
        Status::Error(reason, code) => {
            assert_eq!(reason, "");
            assert_eq!(code, Some(404));
        },
        _ => panic!("expected an error status"),
    }
    assert!(matches!(Status::new(500, &None), Status::Error(_, Some(500))));
    assert!(matches!(Status::new(100, &None), Status::Error(_, Some(100))));
}

#[test]
fn classifier_accept_set_forces_success() {
    let accepted = Some(vec![404u16, 999u16]);
    assert!(matches!(Status::new(404, &accepted), Status::Success(404)));
    assert!(matches!(Status::new(999, &accepted), Status::Success(999)));
    assert!(matches!(Status::new(410, &accepted), Status::Error(_, Some(410))));
    assert!(matches!(Status::new(200, &accepted), Status::Success(200)));
}

#[test]
fn status_predicates() {
    assert!(Status::Success(200).is_success());
    assert!(!Status::Success(200).is_failure());
    assert!(Status::Error("x".to_string(), None).is_failure());
    assert!(!Status::Error("x".to_string(), None).is_success());
    assert!(Status::Excluded.is_excluded());
    assert!(!Status::Excluded.is_success());
    assert!(!Status::Excluded.is_failure());
    assert!(Status::Timeout(None).is_timeout());
    assert!(!Status::Timeout(None).is_success());
    assert!(!Status::Redirected(301).is_success());
}

#[test]
fn status_display_strings() {
    assert_eq!(Status::Success(200).to_display_string(), "OK (200)");
    assert_eq!(Status::Redirected(301).to_display_string(), "Redirect (301)");
    assert_eq!(Status::Excluded.to_display_string(), "Excluded");
    assert_eq!(Status::Timeout(None).to_display_string(), "Timeout");
    assert_eq!(Status::Timeout(Some(504)).to_display_string(), "Timeout (504)");
    assert_eq!(
        Status::Error("connection refused".to_string(), None).to_display_string(),
        "Failed: connection refused"
    );
    assert_eq!(
        Status::Error(String::new(), Some(404)).to_display_string(),
        "Failed:  (404)"
    );
}

#[test]
fn status_display_identifies_the_variant() {
    let renderings = [
        Status::Success(200).to_display_string(),
        Status::Error("Timeout".to_string(), None).to_display_string(),
        Status::Timeout(None).to_display_string(),
        Status::Redirected(301).to_display_string(),
        Status::Excluded.to_display_string(),
    ];
    for (i, a) in renderings.iter().enumerate() {
        for (j, b) in renderings.iter().enumerate() {
            if i != j {
                assert_ne!(a, b);
            }
        }
    }
}

#[test]
fn status_icons() {
    assert_eq!(Status::Success(200).icon(), "✔");
    assert_eq!(Status::Redirected(301).icon(), "⇄️");
    assert_eq!(Status::Excluded.icon(), "?");
    assert_eq!(Status::Error(String::new(), None).icon(), "✗");
    assert_eq!(Status::Timeout(None).icon(), "⧖");
}
