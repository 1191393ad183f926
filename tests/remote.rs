use grovr::remote::parse_github_remote;

#[test]
fn ssh_remote_gives_owner_and_repo() {
    let r = parse_github_remote("git@github.com:acme/widgets.git").expect("recognised");
    assert_eq!(r.owner, "acme");
    assert_eq!(r.repo, "widgets");
}

#[test]
fn https_remote_gives_owner_and_repo() {
    let r = parse_github_remote("https://github.com/acme/widgets").expect("recognised");
    assert_eq!(r.owner, "acme");
    assert_eq!(r.repo, "widgets");
    let r = parse_github_remote("https://github.com/acme/widgets.git").expect("recognised");
    assert_eq!(r.repo, "widgets");
}

#[test]
fn unknown_remote_has_no_identity() {
    assert!(parse_github_remote("https://gitlab.com/acme/widgets").is_none());
    assert!(parse_github_remote("").is_none());
}

#[test]
fn ssh_remote_needs_exactly_two_segments() {
    assert!(parse_github_remote("git@github.com:acme/widgets/extra").is_none());
    assert!(parse_github_remote("git@github.com:acme").is_none());
    assert!(parse_github_remote("git@github.com:/widgets").is_none());
}

#[test]
fn https_remote_tolerates_extra_segments() {
    let r = parse_github_remote("https://github.com/acme/widgets/tree/main").expect("recognised");
    assert_eq!(r.owner, "acme");
    assert_eq!(r.repo, "widgets");
    let r = parse_github_remote("https://github.com/acme/widgets/").expect("recognised");
    assert_eq!(r.repo, "widgets");
    assert!(parse_github_remote("https://github.com/acme").is_none());
}
