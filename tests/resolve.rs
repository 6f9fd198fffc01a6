use should_color::{resolve, resolve_all, resolve_or, ColorChoice};

const ANY_ENV: [Option<&str>; 6] = [
    None,
    Some(""),
    Some("0"),
    Some("1"),
    Some("false"),
    Some("true"),
];

const ANY_CLI: [Option<ColorChoice>; 4] = [
    None,
    Some(ColorChoice::Never),
    Some(ColorChoice::Auto),
    Some(ColorChoice::Always),
];

const ALL_CHOICES: [ColorChoice; 3] = [ColorChoice::Never, ColorChoice::Auto, ColorChoice::Always];

const ANY_FLAG: [Option<bool>; 3] = [None, Some(false), Some(true)];

#[test]
fn resolve_test_clicolor_force() {
    let any_set_clicolor_force = [Some("1"), Some("="), Some("false"), Some("true")];

    for no_color in ANY_ENV {
        for clicolor in ANY_ENV {
            for cli in ANY_CLI {
                for clicolor_force in any_set_clicolor_force {
                    assert_eq!(
                        resolve(cli, no_color, clicolor, clicolor_force),
                        Some(ColorChoice::Always)
                    );
                }
            }
        }
    }
}

#[test]
fn resolve_test_cli() {
    let any_unset_clicolor_force = [None, Some(""), Some("0")];

    for no_color in ANY_ENV {
        for clicolor in ANY_ENV {
            for cli in ALL_CHOICES {
                for clicolor_force in any_unset_clicolor_force {
                    assert_eq!(resolve(Some(cli), no_color, clicolor, clicolor_force), Some(cli));
                }
            }
        }
    }
}

#[test]
fn clicolor_outranks_no_color() {
    assert_eq!(
        resolve_or(ColorChoice::Never, None, Some("1"), Some("1"), None),
        ColorChoice::Auto
    );
    assert_eq!(resolve(None, Some("1"), Some("1"), None), Some(ColorChoice::Auto));
    assert_eq!(resolve(None, Some("1"), Some("0"), Some("0")), Some(ColorChoice::Never));
}

#[test]
fn empty_force_leaves_preference_in_charge() {
    assert_eq!(
        resolve_or(
            ColorChoice::Never,
            Some(ColorChoice::Always),
            None,
            Some("0"),
            Some("")
        ),
        ColorChoice::Always
    );
}

#[test]
fn clicolor_decides_without_preference() {
    for no_color in ANY_ENV {
        assert_eq!(resolve(None, no_color, Some("0"), None), Some(ColorChoice::Never));
        assert_eq!(resolve(None, no_color, Some("yes"), Some("0")), Some(ColorChoice::Auto));
    }
}

#[test]
fn no_color_applies_last() {
    assert_eq!(resolve(None, Some("1"), None, None), Some(ColorChoice::Never));
    assert_eq!(resolve(None, Some("x"), Some(""), Some("")), Some(ColorChoice::Never));
    assert_eq!(
        resolve_or(ColorChoice::Always, None, Some("0"), None, Some("0")),
        ColorChoice::Never
    );
}

#[test]
fn nothing_set_gives_the_default() {
    for empty in [None, Some("")] {
        assert_eq!(resolve(None, empty, empty, empty), None);
        for default in ALL_CHOICES {
            assert_eq!(resolve_or(default, None, empty, empty, empty), default);
        }
    }
    assert_eq!(resolve(None, None, None, Some("0")), None);
}

#[test]
fn resolve_all_force_wins() {
    for default in ALL_CHOICES {
        for suppress in ANY_FLAG {
            for toggle in ANY_FLAG {
                for cli in ANY_CLI {
                    assert_eq!(
                        resolve_all(default, suppress, toggle, Some(true), cli),
                        ColorChoice::Always
                    );
                }
            }
        }
    }
}

#[test]
fn resolve_all_preference_then_toggle() {
    for default in ALL_CHOICES {
        for suppress in ANY_FLAG {
            for force in [None, Some(false)] {
                for toggle in ANY_FLAG {
                    for cli in ALL_CHOICES {
                        assert_eq!(resolve_all(default, suppress, toggle, force, Some(cli)), cli);
                    }
                }
                assert_eq!(
                    resolve_all(default, suppress, Some(true), force, None),
                    ColorChoice::Auto
                );
                assert_eq!(
                    resolve_all(default, suppress, Some(false), force, None),
                    ColorChoice::Never
                );
            }
        }
    }
}

#[test]
fn resolve_all_suppress_then_default() {
    for default in ALL_CHOICES {
        assert_eq!(resolve_all(default, Some(true), None, None, None), ColorChoice::Never);
        assert_eq!(resolve_all(default, None, None, None, None), default);
        assert_eq!(resolve_all(default, Some(false), None, Some(false), None), default);
    }
    assert_eq!(
        resolve_all(ColorChoice::Never, Some(true), Some(true), None, None),
        ColorChoice::Auto
    );
}
