//! Comparison of secrets.

use talia::secret::accepts_digests;

#[test]
fn exact_secrets_match() {
    let configured = "control-secret";

    let accepted = talia::secret::matches(configured, "control-secret");

    assert!(accepted);
}

#[test]
fn near_misses_are_rejected() {
    let configured = "control-secret";

    let results = [
        talia::secret::matches(configured, "control-secre"),
        talia::secret::matches(configured, "control-secret-extra"),
        talia::secret::matches(configured, "different-secret"),
    ];

    assert_eq!(results, [false, false, false]);
}

#[test]
fn blank_configured_secrets_authorize_nobody() {
    let results = [
        talia::secret::matches("", ""),
        talia::secret::matches("   ", "   "),
        talia::secret::matches("", "presented"),
    ];

    assert_eq!(results, [false, false, false]);
}

#[test]
fn digests_decide_for_a_configured_secret() {
    assert!(accepts_digests("s", &[1, 2, 3], &[1, 2, 3]));
    assert!(!accepts_digests("s", &[1, 2, 3], &[1, 2, 4]));
    assert!(!accepts_digests("s", &[1, 2, 3], &[1, 2]));
    assert!(!accepts_digests(" \u{3000}", &[1], &[1]));
}
