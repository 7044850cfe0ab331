use signal_persona_mind::{Error, RoleName, ScopeReason, TaskToken, WirePath};

#[test]
fn role_name_parses_workspace_coordination_tokens() {
    let cases = [
        ("operator", RoleName::Operator),
        ("operator-assistant", RoleName::OperatorAssistant),
        ("designer", RoleName::Designer),
        ("designer-assistant", RoleName::DesignerAssistant),
        ("system-specialist", RoleName::SystemSpecialist),
        ("system-assistant", RoleName::SystemAssistant),
        ("poet", RoleName::Poet),
        ("poet-assistant", RoleName::PoetAssistant),
    ];

    for (token, role) in cases {
        assert_eq!(RoleName::from_wire_token(token), Ok(role));
        assert_eq!(token.parse::<RoleName>(), Ok(role));
        assert_eq!(role.as_wire_token(), token);
        assert_eq!(role.to_string(), token);
    }
}

#[test]
fn role_name_rejects_unregistered_workspace_roles() {
    assert!(RoleName::from_wire_token("").is_err());
    assert!(RoleName::from_wire_token("operator assistant").is_err());
    assert!(RoleName::from_wire_token("Operator").is_err());
    assert!(RoleName::from_wire_token("critic").is_err());
}

#[test]
fn wire_path_requires_absolute_normalized_path() {
    assert!(WirePath::from_absolute_path("/git/github.com/LiGoldragon/persona").is_ok());
    assert!(WirePath::from_absolute_path("relative/path").is_err());
    assert!(WirePath::from_absolute_path("").is_err());
    assert!(WirePath::from_absolute_path("/git/../persona").is_err());

    let normalized = WirePath::from_absolute_path("/git//github.com/./LiGoldragon/persona/")
        .expect("normalizable absolute path");
    assert_eq!(normalized.as_str(), "/git/github.com/LiGoldragon/persona");

    let root = WirePath::from_absolute_path("/").expect("root path");
    assert_eq!(root.as_str(), "/");
}

#[test]
fn task_token_rejects_brackets_empty_and_whitespace() {
    assert!(TaskToken::from_wire_token("primary-f99").is_ok());
    assert!(TaskToken::from_wire_token("[primary-f99]").is_err());
    assert!(TaskToken::from_wire_token("").is_err());
    assert!(TaskToken::from_wire_token("primary f99").is_err());
}

#[test]
fn scope_reason_rejects_blank_and_multiline_text() {
    assert!(ScopeReason::from_text("short reason").is_ok());
    assert!(ScopeReason::from_text("").is_err());
    assert!(ScopeReason::from_text("   ").is_err());
    assert!(ScopeReason::from_text("first\nsecond").is_err());
}

// ─── Further cases ────────────────────────────────────────

#[test]
fn every_role_reads_back_from_its_token() {
    for role in RoleName::ALL {
        assert_eq!(RoleName::from_wire_token(role.as_wire_token()), Ok(role));
    }
}

#[test]
fn unknown_role_error_carries_the_token() {
    assert_eq!(
        RoleName::from_wire_token("critic"),
        Err(Error::UnknownRoleName { role: "critic".to_string() })
    );
}

#[test]
fn wire_path_error_carries_the_path_as_given() {
    assert_eq!(
        WirePath::from_absolute_path("relative/path"),
        Err(Error::InvalidWirePath { path: "relative/path".to_string() })
    );
    assert_eq!(
        WirePath::from_absolute_path("/a/..").unwrap_err(),
        Error::InvalidWirePath { path: "/a/..".to_string() }
    );
}

#[test]
fn wire_path_keeps_dotted_names_that_are_not_dot_components() {
    let path = WirePath::from_absolute_path("/a/.hidden/..b/...").expect("dotted names");
    assert_eq!(path.as_str(), "/a/.hidden/..b/...");
}

#[test]
fn wire_path_collapses_to_root() {
    for text in ["/", "//", "/./", "/././/.", "///"] {
        let path = WirePath::from_absolute_path(text).expect("root forms");
        assert_eq!(path.as_str(), "/");
    }
}

#[test]
fn wire_path_normalization_is_idempotent() {
    for text in ["/git//github.com/./x/", "/a/b/c", "/./a//b/./", "/é/ü//ñ/"] {
        let once = WirePath::from_absolute_path(text).expect("accepted");
        let twice = WirePath::from_absolute_path(once.as_str()).expect("re-accepted");
        assert_eq!(once, twice);
    }
}

#[test]
fn wire_path_handles_non_ascii_components() {
    let path = WirePath::from_absolute_path("/é/./ü//ñ/").expect("unicode path");
    assert_eq!(path.as_str(), "/é/ü/ñ");
}

#[test]
fn wire_path_try_new_matches_from_absolute_path() {
    let owned = WirePath::try_new("/x//y/".to_string()).expect("owned");
    assert_eq!(owned.as_str(), "/x/y");
    assert!(WirePath::try_new("x".to_string()).is_err());
}

#[test]
fn task_token_refuses_unicode_white_space() {
    assert!(TaskToken::from_wire_token("primary\u{3000}f99").is_err());
    assert!(TaskToken::from_wire_token("primary\u{a0}f99").is_err());
    assert!(TaskToken::from_wire_token("primary\tf99").is_err());
    assert!(TaskToken::from_wire_token("primary]").is_err());
    let token = TaskToken::from_wire_token("primary-f99").expect("token");
    assert_eq!(token.as_str(), "primary-f99");
    assert_eq!(
        TaskToken::try_new("a b".to_string()),
        Err(Error::InvalidTaskToken { token: "a b".to_string() })
    );
}

#[test]
fn scope_reason_keeps_text_unchanged() {
    let reason = ScopeReason::from_text("  padded reason ").expect("reason");
    assert_eq!(reason.as_str(), "  padded reason ");
    assert!(ScopeReason::from_text("\u{2003}\u{3000}").is_err());
    assert!(ScopeReason::from_text("first\rsecond").is_err());
    assert_eq!(
        ScopeReason::try_new("\t".to_string()),
        Err(Error::InvalidScopeReason { reason: "\t".to_string() })
    );
}

#[test]
fn error_messages_name_the_rule_and_the_text() {
    assert_eq!(
        Error::InvalidWirePath { path: "x".to_string() }.message(),
        "wire path must be absolute and normalized: x"
    );
    assert_eq!(
        Error::InvalidTaskToken { token: "[t]".to_string() }.message(),
        "task token must be non-empty, unbracketed, and contain no whitespace: [t]"
    );
    assert_eq!(
        Error::InvalidScopeReason { reason: "".to_string() }.message(),
        "scope reason must be non-empty and single-line: "
    );
    assert_eq!(
        Error::UnknownRoleName { role: "critic".to_string() }.message(),
        "unknown workspace role token: critic"
    );
}

#[test]
fn readme_boundary_strings_are_accepted() {
    let path = WirePath::from_absolute_path("/git/.../signal/ARCHITECTURE.md").expect("path");
    assert_eq!(path.as_str(), "/git/.../signal/ARCHITECTURE.md");
    let reason = ScopeReason::from_text("rescope per /91 §3.1").expect("reason");
    assert_eq!(reason.as_str(), "rescope per /91 §3.1");
    assert!(ScopeReason::from_text("Persona-prefix sweep").is_ok());
}

#[test]
fn try_from_matches_the_constructors() {
    assert_eq!(RoleName::try_from("designer"), Ok(RoleName::Designer));
    assert_eq!(RoleName::try_from("critic".to_string()), Err(Error::UnknownRoleName { role: "critic".to_string() }));
    let path = WirePath::try_from("/a//b/./").expect("path");
    assert_eq!(path.as_str(), "/a/b");
    assert_eq!(WirePath::try_from("a".to_string()), Err(Error::InvalidWirePath { path: "a".to_string() }));
    assert_eq!(TaskToken::try_from("primary-f99").expect("token").as_str(), "primary-f99");
    assert_eq!(
        TaskToken::try_from("[x]".to_string()),
        Err(Error::InvalidTaskToken { token: "[x]".to_string() })
    );
    assert_eq!(ScopeReason::try_from("why").expect("reason").as_str(), "why");
    assert_eq!(
        ScopeReason::try_from(" ".to_string()),
        Err(Error::InvalidScopeReason { reason: " ".to_string() })
    );
}

#[test]
fn wire_path_text_has_normalized_shape() {
    for text in ["/", "//", "/a//b/", "/./x/./y/.", "/git/.../signal/"] {
        let path = WirePath::from_absolute_path(text).expect("accepted");
        let s = path.as_str();
        assert!(s.starts_with('/'));
        assert!(!s.contains("//"));
        assert!(s == "/" || !s.ends_with('/'));
        assert!(!s.split('/').any(|c| c == "." || c == ".."));
    }
}

#[test]
fn equal_texts_give_equal_values() {
    assert_eq!(WirePath::from_absolute_path("/a/b/").unwrap(), WirePath::from_absolute_path("//a/./b").unwrap());
    assert_ne!(WirePath::from_absolute_path("/a").unwrap(), WirePath::from_absolute_path("/b").unwrap());
    assert_eq!(TaskToken::from_wire_token("t").unwrap(), TaskToken::from_wire_token("t").unwrap());
    assert_ne!(ScopeReason::from_text("a").unwrap(), ScopeReason::from_text("a ").unwrap());
}
