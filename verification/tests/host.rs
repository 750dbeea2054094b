use step_directives::host::{check_host_version, judge_host, HostError};

#[test]
fn same_version_is_silent() {
    assert_eq!(check_host_version("demo", "0.4.40", "0.4.40"), Ok(None));
}

#[test]
fn later_patch_is_silent() {
    assert_eq!(check_host_version("demo", "0.4.36", "0.4.40"), Ok(None));
}

#[test]
fn earlier_version_is_warned() {
    assert_eq!(
        check_host_version("demo", "0.4.40", "0.4.36"),
        Ok(Some(
            "Warning: The demo plugin was built against version 0.4.40 of mdbook, \
             but we're being called from version 0.4.36"
                .to_owned()
        ))
    );
}

#[test]
fn other_minor_version_is_warned() {
    assert!(matches!(check_host_version("demo", "0.4.40", "0.5.0"), Ok(Some(_))));
}

#[test]
fn unreadable_version_fails() {
    assert_eq!(check_host_version("demo", "0.4.40", "latest"), Err(HostError::UnreadableVersion));
    assert_eq!(check_host_version("demo", "@1", "0.4.40"), Err(HostError::UnreadableVersion));
    assert_eq!(check_host_version("demo", "0.4.40", ""), Err(HostError::UnreadableVersion));
}

#[test]
fn verdict_for_each_outcome() {
    assert_eq!(judge_host(Some(true), "n", "1.0.0", "1.0.1"), Ok(None));
    assert_eq!(
        judge_host(Some(false), "n", "1.0.0", "2.0.0"),
        Ok(Some(
            "Warning: The n plugin was built against version 1.0.0 of mdbook, \
             but we're being called from version 2.0.0"
                .to_owned()
        ))
    );
    assert_eq!(judge_host(None, "n", "x", "y"), Err(HostError::UnreadableVersion));
}
