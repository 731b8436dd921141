use blog_sync::config::{is_plausible_email, RepositoryConfig, ValidationError};

fn restore(
    url: &str,
    repository: &str,
    name: &str,
    email: &str,
    branch: Option<&str>,
    epoch: i64,
) -> Option<RepositoryConfig> {
    RepositoryConfig::restore(
        url.to_string(),
        repository.to_string(),
        name.to_string(),
        email.to_string(),
        branch.map(|b| b.to_string()),
        epoch,
    )
}

#[test]
fn accepted_input_gives_a_fresh_record() {
    let c = RepositoryConfig::new("https://example.com/blog-site.git", "Ada", "ada@example.com").unwrap();
    assert_eq!(c.remote_url(), "https://example.com/blog-site.git");
    assert_eq!(c.repository_name(), "blog-site.git");
    assert_eq!(c.author_name(), "Ada");
    assert_eq!(c.author_email(), "ada@example.com");
    assert_eq!(c.active_branch(), &None);
    assert_eq!(c.last_export_epoch(), 0);
}

#[test]
fn one_trailing_separator_is_dropped() {
    let c = RepositoryConfig::new("https://example.com/ada/site/", "Ada", "ada@example.com").unwrap();
    assert_eq!(c.remote_url(), "https://example.com/ada/site");
    assert_eq!(c.repository_name(), "site");
}

#[test]
fn an_address_without_a_path_is_named_after_its_host() {
    let c = RepositoryConfig::new("http://example.com", "Ada", "ada@example.com").unwrap();
    assert_eq!(c.repository_name(), "example.com");
}

#[test]
fn url_must_start_with_http() {
    for url in ["", "ftp://example.com/site.git", "git@example.com:ada/site.git", "htt", "HTTP://x/y"] {
        assert_eq!(
            RepositoryConfig::new(url, "Ada", "ada@example.com").err(),
            Some(ValidationError::UrlScheme),
            "{}",
            url
        );
    }
}

#[test]
fn author_name_must_not_be_empty() {
    assert_eq!(
        RepositoryConfig::new("https://example.com/site.git", "", "ada@example.com").err(),
        Some(ValidationError::EmptyAuthorName)
    );
}

#[test]
fn email_must_be_plausible() {
    for email in ["", "a@b", "ada", "@example.com", "ada@.com", "ada@example.", "ada@@example.com",
        "ada lovelace@example.com", "ada@exam_ple.com", "ada@example.c om", "a@b.", "ädä@example.com"]
    {
        assert_eq!(
            RepositoryConfig::new("https://example.com/site.git", "Ada", email).err(),
            Some(ValidationError::InvalidEmail),
            "{}",
            email
        );
        assert!(!is_plausible_email(email), "{}", email);
    }
    for email in ["a@b.c", "ada@example.com", "ada.l+blog@my-host.example.co.uk", "A_1@X-1.io", "a@b..c"] {
        assert!(is_plausible_email(email), "{}", email);
    }
}

#[test]
fn address_must_end_in_a_segment() {
    for url in ["http", "https:", "http://", "https://example.com//"] {
        assert_eq!(
            RepositoryConfig::new(url, "Ada", "ada@example.com").err(),
            Some(ValidationError::IllegalAddress),
            "{}",
            url
        );
    }
}

#[test]
fn the_first_broken_rule_is_reported() {
    assert_eq!(RepositoryConfig::new("x", "", "bad").err(), Some(ValidationError::UrlScheme));
    assert_eq!(RepositoryConfig::new("http://", "", "bad").err(), Some(ValidationError::EmptyAuthorName));
    assert_eq!(RepositoryConfig::new("http://", "Ada", "bad").err(), Some(ValidationError::InvalidEmail));
}

#[test]
fn validation_messages() {
    assert_eq!(ValidationError::UrlScheme.message(), "Url must starts with 'http'.");
    assert_eq!(ValidationError::EmptyAuthorName.message(), "UserName must not be empty.");
    assert_eq!(ValidationError::InvalidEmail.message(), "输入的邮箱地址不合法/Invalid email address.");
    assert_eq!(ValidationError::IllegalAddress.message(), "输入的仓库地址不合法/Illegal repository address.");
}

#[test]
fn restore_accepts_what_new_made() {
    let c = restore("https://example.com/site.git", "site.git", "Ada", "ada@example.com", Some("main"), 1000)
        .unwrap();
    assert_eq!(c.remote_url(), "https://example.com/site.git");
    assert_eq!(c.active_branch(), &Some("main".to_string()));
    assert_eq!(c.last_export_epoch(), 1000);
    let fresh = RepositoryConfig::new("https://example.com/site.git", "Ada", "ada@example.com").unwrap();
    assert_eq!(restore("https://example.com/site.git", "site.git", "Ada", "ada@example.com", None, 0), Some(fresh));
}

#[test]
fn restore_refuses_what_breaks_the_invariant() {
    assert_eq!(restore("ftp://example.com/site.git", "site.git", "Ada", "ada@example.com", None, 0), None);
    assert_eq!(restore("https://example.com/site.git", "other", "Ada", "ada@example.com", None, 0), None);
    assert_eq!(restore("https://example.com/site.git/", "", "Ada", "ada@example.com", None, 0), None);
    assert_eq!(restore("https://example.com/site.git", "site.git", "", "ada@example.com", None, 0), None);
    assert_eq!(restore("https://example.com/site.git", "site.git", "Ada", "ada", None, 0), None);
    assert_eq!(restore("http", "http", "Ada", "ada@example.com", None, 0), None);
}

#[test]
fn branch_and_epoch_can_be_replaced() {
    let c = RepositoryConfig::new("https://example.com/site.git", "Ada", "ada@example.com").unwrap();
    let d = c.duplicate().with_branch("main".to_string()).with_epoch(77);
    assert_eq!(d.active_branch(), &Some("main".to_string()));
    assert_eq!(d.last_export_epoch(), 77);
    assert_eq!(d.remote_url(), c.remote_url());
    assert_eq!(d.repository_name(), c.repository_name());
    assert_eq!(c.duplicate(), c);
    assert_eq!(c.active_branch(), &None);
}
