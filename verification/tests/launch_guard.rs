use codex_logic::launch_guard::token_context_from_groups;
use codex_logic::launch_guard::ProcessTokenContext;
use codex_logic::launch_guard::LEGACY_SANDBOX_SETUP_REQUIRED_ERROR;

#[test]
fn network_logon_tokens_require_elevated_fallback() {
    let context = ProcessTokenContext {
        session_id: 0,
        has_interactive_sid: false,
        has_remote_interactive_sid: false,
        has_network_sid: true,
    };

    assert!(context.needs_elevated_runner_fallback());
}

#[test]
fn session_zero_without_interactive_groups_requires_elevated_fallback() {
    let context = ProcessTokenContext {
        session_id: 0,
        has_interactive_sid: false,
        has_remote_interactive_sid: false,
        has_network_sid: false,
    };

    assert!(context.needs_elevated_runner_fallback());
}

#[test]
fn local_interactive_tokens_stay_on_legacy_runner() {
    let context = ProcessTokenContext {
        session_id: 1,
        has_interactive_sid: true,
        has_remote_interactive_sid: false,
        has_network_sid: false,
    };

    assert!(!context.needs_elevated_runner_fallback());
}

#[test]
fn remote_interactive_tokens_stay_on_legacy_runner() {
    let context = ProcessTokenContext {
        session_id: 2,
        has_interactive_sid: false,
        has_remote_interactive_sid: true,
        has_network_sid: false,
    };

    assert!(!context.needs_elevated_runner_fallback());
}

#[test]
fn network_sid_wins_over_interactive_groups() {
    let context = ProcessTokenContext {
        session_id: 3,
        has_interactive_sid: true,
        has_remote_interactive_sid: true,
        has_network_sid: true,
    };
    assert!(context.needs_elevated_runner_fallback());
}

#[test]
fn session_zero_with_interactive_group_stays_on_legacy_runner() {
    let context = ProcessTokenContext {
        session_id: 0,
        has_interactive_sid: true,
        has_remote_interactive_sid: false,
        has_network_sid: false,
    };
    assert!(!context.needs_elevated_runner_fallback());
}

#[test]
fn non_zero_session_without_groups_stays_on_legacy_runner() {
    let context = ProcessTokenContext {
        session_id: 5,
        has_interactive_sid: false,
        has_remote_interactive_sid: false,
        has_network_sid: false,
    };
    assert!(!context.needs_elevated_runner_fallback());
}

#[test]
fn token_context_reads_well_known_group_sids() {
    let groups = vec![
        "S-1-1-0".to_string(),
        "S-1-5-2".to_string(),
        "S-1-5-11".to_string(),
    ];
    let context = token_context_from_groups(0, &groups);
    assert_eq!(
        context,
        ProcessTokenContext {
            session_id: 0,
            has_interactive_sid: false,
            has_remote_interactive_sid: false,
            has_network_sid: true,
        }
    );
    assert!(context.needs_elevated_runner_fallback());

    let groups = vec!["S-1-5-4".to_string(), "S-1-5-14".to_string()];
    let context = token_context_from_groups(2, &groups);
    assert_eq!(
        context,
        ProcessTokenContext {
            session_id: 2,
            has_interactive_sid: true,
            has_remote_interactive_sid: true,
            has_network_sid: false,
        }
    );
}

#[test]
fn token_context_does_not_match_sid_prefixes() {
    let groups = vec!["S-1-5-41".to_string(), "S-1-5-4-1".to_string(), "S-1-5-1".to_string()];
    let context = token_context_from_groups(1, &groups);
    assert!(!context.has_interactive_sid);
    assert!(!context.has_remote_interactive_sid);
    assert!(!context.has_network_sid);
}

#[test]
fn setup_required_error_names_the_elevated_setting() {
    assert!(LEGACY_SANDBOX_SETUP_REQUIRED_ERROR.contains("windows.sandbox = \"elevated\""));
}
