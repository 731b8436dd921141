//! The configuration record of the one repository a server publishes to,
//! and the rules an operator's input must pass before such a record exists.

use crate::text::{
    chars_of, find_first, find_last, first_position, last_position, lemma_last_position,
    starts_with, string_of,
};
use vstd::prelude::*;
use vstd::string::*;

verus! {

/// Why an operator's input was turned down.
#[derive(Clone, Copy, Debug, PartialEq, Eq, Structural)]
pub enum ValidationError {
    /// The remote address does not begin with `http`.
    UrlScheme,
    /// The author name is empty.
    EmptyAuthorName,
    /// The author's e-mail address is not of the accepted shape.
    InvalidEmail,
    /// The remote address has no final path segment to name the repository.
    IllegalAddress,
}

impl ValidationError {
    /// The sentence shown to the operator.
    pub open spec fn message_text(self) -> Seq<char> {
        match self {
            ValidationError::UrlScheme => "Url must starts with 'http'."@,
            ValidationError::EmptyAuthorName => "UserName must not be empty."@,
            ValidationError::InvalidEmail => "输入的邮箱地址不合法/Invalid email address."@,
            ValidationError::IllegalAddress => "输入的仓库地址不合法/Illegal repository address."@,
        }
    }

    /// The sentence shown to the operator.
    pub fn message(&self) -> (r: String)
        ensures
            r@ == self.message_text(),
    {
        match self {
            ValidationError::UrlScheme => String::from_str("Url must starts with 'http'."),
            ValidationError::EmptyAuthorName => String::from_str("UserName must not be empty."),
            ValidationError::InvalidEmail => String::from_str(
                "输入的邮箱地址不合法/Invalid email address.",
            ),
            ValidationError::IllegalAddress => String::from_str(
                "输入的仓库地址不合法/Illegal repository address.",
            ),
        }
    }
}

/// The character sets an e-mail address is made of.
#[derive(Clone, Copy, Debug, PartialEq, Eq, Structural)]
pub enum CharClass {
    /// Letters, digits and `_ . + -`: the part before the `@`.
    Local,
    /// Letters, digits and `-`: the first label of the domain.
    Label,
    /// Letters, digits, `-` and `.`: the rest of the domain.
    Domain,
}

/// An ASCII letter or digit.
pub open spec fn is_alphanumeric(c: char) -> bool {
    ('a' <= c && c <= 'z') || ('A' <= c && c <= 'Z') || ('0' <= c && c <= '9')
}

/// Whether `c` belongs to `class`.
pub open spec fn in_class(c: char, class: CharClass) -> bool {
    match class {
        CharClass::Local => is_alphanumeric(c) || c == '_' || c == '.' || c == '+' || c == '-',
        CharClass::Label => is_alphanumeric(c) || c == '-',
        CharClass::Domain => is_alphanumeric(c) || c == '-' || c == '.',
    }
}

/// Whether every character of `s[from..to]` belongs to `class`.
pub open spec fn all_in_class(s: Seq<char>, from: int, to: int, class: CharClass) -> bool {
    forall|k: int| from <= k < to ==> in_class(#[trigger] s[k], class)
}

/// The accepted shape of an e-mail address: a non-empty local part, one
/// `@`, a non-empty first domain label, a `.`, and a non-empty rest. Each
/// part is drawn from its own character class, so no second `@` and no
/// space can occur.
pub open spec fn plausible_email(s: Seq<char>) -> bool {
    let at = first_position(s, '@', 0);
    let dot = first_position(s, '.', at + 1);
    &&& 0 < at < s.len()
    &&& all_in_class(s, 0, at, CharClass::Local)
    &&& at + 1 < dot
    &&& dot + 1 < s.len()
    &&& all_in_class(s, at + 1, dot, CharClass::Label)
    &&& all_in_class(s, dot + 1, s.len() as int, CharClass::Domain)
}

/// No accepted address is shorter than five characters (`a@b.c`).
pub proof fn lemma_plausible_email_length(s: Seq<char>)
    requires
        plausible_email(s),
    ensures
        s.len() >= 5,
{
}

fn belongs(c: char, class: CharClass) -> (b: bool)
    ensures
        b == in_class(c, class),
{
    let alphanumeric = ('a' <= c && c <= 'z') || ('A' <= c && c <= 'Z') || ('0' <= c && c <= '9');
    match class {
        CharClass::Local => alphanumeric || c == '_' || c == '.' || c == '+' || c == '-',
        CharClass::Label => alphanumeric || c == '-',
        CharClass::Domain => alphanumeric || c == '-' || c == '.',
    }
}

fn all_belong(v: &Vec<char>, from: usize, to: usize, class: CharClass) -> (b: bool)
    requires
        from <= to <= v.len(),
    ensures
        b == all_in_class(v@, from as int, to as int, class),
{
    let mut i: usize = from;
    while i < to
        invariant
            from <= i <= to <= v.len(),
            all_in_class(v@, from as int, i as int, class),
        decreases to - i,
    {
        if !belongs(v[i], class) {
            return false;
        }
        i = i + 1;
    }
    true
}

/// Tells whether `email` has the accepted shape.
pub fn is_plausible_email(email: &str) -> (b: bool)
    ensures
        b == plausible_email(email@),
{
    let v = chars_of(email);
    plausible_chars(&v)
}

fn plausible_chars(v: &Vec<char>) -> (b: bool)
    ensures
        b == plausible_email(v@),
{
    let at = find_first(v, '@', 0);
    if at == 0 || at >= v.len() {
        return false;
    }
    let dot = find_first(v, '.', at + 1);
    if dot <= at + 1 || dot >= v.len() - 1 {
        return false;
    }
    all_belong(v, 0, at, CharClass::Local) && all_belong(v, at + 1, dot, CharClass::Label)
        && all_belong(v, dot + 1, v.len(), CharClass::Domain)
}

/// The four characters every remote address begins with.
pub open spec fn http_scheme() -> Seq<char> {
    seq!['h', 't', 't', 'p']
}

/// `url` without its final `/`, if it has one.
pub open spec fn trimmed_url(url: Seq<char>) -> Seq<char> {
    if url.len() > 0 && url.last() == '/' {
        url.drop_last()
    } else {
        url
    }
}

/// What follows the last `/` of `url`.
pub open spec fn last_segment(url: Seq<char>) -> Seq<char> {
    url.subrange(last_position(url, '/') + 1, url.len() as int)
}

/// The first rule that the input breaks, in the order in which the rules
/// are applied, or `None` when it breaks none.
pub open spec fn validation_failure(url: Seq<char>, name: Seq<char>, email: Seq<char>) -> Option<
    ValidationError,
> {
    if !http_scheme().is_prefix_of(url) {
        Some(ValidationError::UrlScheme)
    } else if name.len() == 0 {
        Some(ValidationError::EmptyAuthorName)
    } else if !plausible_email(email) {
        Some(ValidationError::InvalidEmail)
    } else if last_position(trimmed_url(url), '/') < 0 || last_segment(trimmed_url(url)).len()
        == 0 {
        Some(ValidationError::IllegalAddress)
    } else {
        None
    }
}

/// A configuration record as plain values.
pub struct RepositoryConfigView {
    pub remote_url: Seq<char>,
    pub repository_name: Seq<char>,
    pub author_name: Seq<char>,
    pub author_email: Seq<char>,
    pub active_branch: Option<Seq<char>>,
    pub last_export_epoch: int,
}

/// What holds of every configuration record.
pub open spec fn valid_config(c: RepositoryConfigView) -> bool {
    &&& http_scheme().is_prefix_of(c.remote_url)
    &&& last_position(c.remote_url, '/') >= 0
    &&& c.repository_name == last_segment(c.remote_url)
    &&& c.repository_name.len() > 0
    &&& c.author_name.len() > 0
    &&& plausible_email(c.author_email)
}

/// The record that accepted input gives: no branch chosen, nothing
/// exported yet.
pub open spec fn fresh_config(
    url: Seq<char>,
    name: Seq<char>,
    email: Seq<char>,
) -> RepositoryConfigView {
    RepositoryConfigView {
        remote_url: trimmed_url(url),
        repository_name: last_segment(trimmed_url(url)),
        author_name: name,
        author_email: email,
        active_branch: None,
        last_export_epoch: 0,
    }
}

/// The text of an optional string.
pub open spec fn optional_text(s: Option<String>) -> Option<Seq<char>> {
    match s {
        Some(t) => Some(t@),
        None => None,
    }
}

/// A remote address never ends with a path separator.
pub proof fn lemma_valid_url_has_no_trailing_separator(c: RepositoryConfigView)
    requires
        valid_config(c),
    ensures
        c.remote_url.len() > 0,
        c.remote_url.last() != '/',
{
    lemma_last_position(c.remote_url, '/');
    let at = last_position(c.remote_url, '/');
    assert(c.repository_name.len() == c.remote_url.len() - (at + 1));
    if c.remote_url.last() == '/' {
        assert(c.remote_url[c.remote_url.len() - 1] == '/');
    }
}

/// Accepted input gives a valid record.
pub proof fn lemma_fresh_config_is_valid(url: Seq<char>, name: Seq<char>, email: Seq<char>)
    requires
        validation_failure(url, name, email) is None,
    ensures
        valid_config(fresh_config(url, name, email)),
{
    let t = trimmed_url(url);
    assert(http_scheme() =~= url.subrange(0, 4));
    if t != url {
        lemma_last_position(t, '/');
        assert(t.len() >= 4) by {
            if url.len() == 4 {
                assert(url.last() == url.subrange(0, 4)[3]);
            }
        }
        assert(http_scheme() =~= t.subrange(0, 4));
    }
}

/// How the server reaches its one remote repository: where it is, who
/// signs the commits, which branch is published, and when posts were last
/// exported successfully.
#[derive(Debug, PartialEq, Eq)]
pub struct RepositoryConfig {
    remote_url: String,
    repository_name: String,
    author_name: String,
    author_email: String,
    active_branch: Option<String>,
    last_export_epoch: i64,
}

impl View for RepositoryConfig {
    type V = RepositoryConfigView;

    closed spec fn view(&self) -> RepositoryConfigView {
        RepositoryConfigView {
            remote_url: self.remote_url@,
            repository_name: self.repository_name@,
            author_name: self.author_name@,
            author_email: self.author_email@,
            active_branch: optional_text(self.active_branch),
            last_export_epoch: self.last_export_epoch as int,
        }
    }
}

/// The record with these six values.
pub open spec fn config_of_parts(
    remote_url: Seq<char>,
    repository_name: Seq<char>,
    author_name: Seq<char>,
    author_email: Seq<char>,
    active_branch: Option<Seq<char>>,
    last_export_epoch: int,
) -> RepositoryConfigView {
    RepositoryConfigView {
        remote_url,
        repository_name,
        author_name,
        author_email,
        active_branch,
        last_export_epoch,
    }
}

/// `c` with `branch` as its published branch.
pub open spec fn with_branch_view(c: RepositoryConfigView, branch: Seq<char>) -> RepositoryConfigView {
    RepositoryConfigView { active_branch: Some(branch), ..c }
}

/// `c` as a repository has it that was just set up: no branch chosen,
/// nothing exported.
pub open spec fn fresh_view(c: RepositoryConfigView) -> RepositoryConfigView {
    RepositoryConfigView { active_branch: None, last_export_epoch: 0, ..c }
}

/// `c` with `epoch` as the time of its last successful export.
pub open spec fn with_epoch_view(c: RepositoryConfigView, epoch: int) -> RepositoryConfigView {
    RepositoryConfigView { last_export_epoch: epoch, ..c }
}

fn ends_in(a: &Vec<char>, from: usize, b: &Vec<char>) -> (r: bool)
    requires
        from <= a.len(),
    ensures
        r == (a@.subrange(from as int, a@.len() as int) == b@),
{
    if a.len() - from != b.len() {
        return false;
    }
    let mut i: usize = 0;
    while i < b.len()
        invariant
            from <= a.len(),
            a.len() - from == b.len(),
            i <= b.len(),
            forall|k: int| 0 <= k < i ==> a@[from + k] == b@[k],
        decreases b.len() - i,
    {
        if a[from + i] != b[i] {
            assert(a@.subrange(from as int, a@.len() as int)[i as int] != b@[i as int]);
            return false;
        }
        i = i + 1;
    }
    assert(a@.subrange(from as int, a@.len() as int) =~= b@);
    true
}

fn http_chars() -> (v: Vec<char>)
    ensures
        v@ == http_scheme(),
{
    let mut v: Vec<char> = Vec::new();
    v.push('h');
    v.push('t');
    v.push('t');
    v.push('p');
    assert(v@ =~= http_scheme());
    v
}

impl RepositoryConfig {
    /// Every record is valid: no function of this module makes one that
    /// is not.
    #[verifier::type_invariant]
    pub open spec fn well_formed(&self) -> bool {
        valid_config(self@)
    }

    /// Checks an operator's input and, if it passes, makes the record of a
    /// repository that has no branch chosen and nothing exported. The rules
    /// are applied in a fixed order and the first broken one is reported:
    /// the address begins with `http`; the author name is not empty; the
    /// e-mail address has the accepted shape; the address, less one final
    /// `/`, ends in a non-empty segment, which names the repository.
    pub fn new(remote_url: &str, author_name: &str, author_email: &str) -> (r: Result<
        RepositoryConfig,
        ValidationError,
    >)
        ensures
            match r {
                Ok(c) => validation_failure(remote_url@, author_name@, author_email@) is None
                    && c@ == fresh_config(remote_url@, author_name@, author_email@)
                    && valid_config(c@),
                Err(e) => validation_failure(remote_url@, author_name@, author_email@) == Some(e),
            },
    {
        let url = chars_of(remote_url);
        let scheme = http_chars();
        if !starts_with(&url, &scheme) {
            return Err(ValidationError::UrlScheme);
        }
        if author_name.is_empty() {
            return Err(ValidationError::EmptyAuthorName);
        }
        if !is_plausible_email(author_email) {
            return Err(ValidationError::InvalidEmail);
        }
        let len = if url[url.len() - 1] == '/' {
            url.len() - 1
        } else {
            url.len()
        };
        assert(url@.take(len as int) =~= trimmed_url(url@));
        let slash = match find_last(&url, len, '/') {
            Some(at) => at,
            None => {
                return Err(ValidationError::IllegalAddress);
            },
        };
        proof {
            lemma_last_position(trimmed_url(url@), '/');
        }
        if slash + 1 == len {
            return Err(ValidationError::IllegalAddress);
        }
        let repository_name = string_of(&url, slash + 1, len);
        let trimmed = string_of(&url, 0, len);
        assert(url@.subrange(0, len as int) =~= trimmed_url(url@));
        assert(url@.subrange(slash + 1, len as int) =~= last_segment(trimmed_url(url@)));
        proof {
            lemma_fresh_config_is_valid(remote_url@, author_name@, author_email@);
        }
        Ok(
            RepositoryConfig {
                remote_url: trimmed,
                repository_name,
                author_name: String::from_str(author_name),
                author_email: String::from_str(author_email),
                active_branch: None,
                last_export_epoch: 0,
            },
        )
    }

    /// Rebuilds a record from stored values, or returns `None` when they do
    /// not make a valid record.
    pub fn restore(
        remote_url: String,
        repository_name: String,
        author_name: String,
        author_email: String,
        active_branch: Option<String>,
        last_export_epoch: i64,
    ) -> (r: Option<RepositoryConfig>)
        ensures
            r is Some <==> valid_config(
                config_of_parts(
                    remote_url@,
                    repository_name@,
                    author_name@,
                    author_email@,
                    optional_text(active_branch),
                    last_export_epoch as int,
                ),
            ),
            r matches Some(c) ==> c@ == config_of_parts(
                remote_url@,
                repository_name@,
                author_name@,
                author_email@,
                optional_text(active_branch),
                last_export_epoch as int,
            ),
    {
        let url = chars_of(remote_url.as_str());
        let name = chars_of(repository_name.as_str());
        let scheme = http_chars();
        if !starts_with(&url, &scheme) {
            return None;
        }
        let slash = match find_last(&url, url.len(), '/') {
            Some(at) => at,
            None => {
                assert(url@.take(url@.len() as int) =~= url@);
                return None;
            },
        };
        assert(url@.take(url@.len() as int) =~= url@);
        proof {
            lemma_last_position(url@, '/');
        }
        if !ends_in(&url, slash + 1, &name) {
            return None;
        }
        if name.len() == 0 || author_name.as_str().is_empty() {
            return None;
        }
        if !is_plausible_email(author_email.as_str()) {
            return None;
        }
        Some(
            RepositoryConfig {
                remote_url,
                repository_name,
                author_name,
                author_email,
                active_branch,
                last_export_epoch,
            },
        )
    }

    /// The remote address.
    pub fn remote_url(&self) -> (r: &String)
        ensures
            r@ == self@.remote_url,
            valid_config(self@),
    {
        proof {
            use_type_invariant(self);
        }
        &self.remote_url
    }

    /// The repository's name: the last segment of the remote address.
    pub fn repository_name(&self) -> (r: &String)
        ensures
            r@ == self@.repository_name,
    {
        &self.repository_name
    }

    /// The name that signs commits.
    pub fn author_name(&self) -> (r: &String)
        ensures
            r@ == self@.author_name,
    {
        &self.author_name
    }

    /// The e-mail address that signs commits.
    pub fn author_email(&self) -> (r: &String)
        ensures
            r@ == self@.author_email,
    {
        &self.author_email
    }

    /// The published branch, once one has been chosen.
    pub fn active_branch(&self) -> (r: &Option<String>)
        ensures
            optional_text(*r) == self@.active_branch,
    {
        &self.active_branch
    }

    /// When posts were last exported successfully, in seconds; 0 if never.
    pub fn last_export_epoch(&self) -> (r: i64)
        ensures
            r == self@.last_export_epoch,
    {
        self.last_export_epoch
    }

    /// The same record with `branch` as its published branch.
    pub fn with_branch(self, branch: String) -> (r: RepositoryConfig)
        ensures
            r@ == with_branch_view(self@, branch@),
    {
        proof {
            use_type_invariant(&self);
        }
        RepositoryConfig {
            remote_url: self.remote_url,
            repository_name: self.repository_name,
            author_name: self.author_name,
            author_email: self.author_email,
            active_branch: Some(branch),
            last_export_epoch: self.last_export_epoch,
        }
    }

    /// The same record with `epoch` as the time of its last export.
    pub fn with_epoch(self, epoch: i64) -> (r: RepositoryConfig)
        ensures
            r@ == with_epoch_view(self@, epoch as int),
    {
        proof {
            use_type_invariant(&self);
        }
        RepositoryConfig {
            remote_url: self.remote_url,
            repository_name: self.repository_name,
            author_name: self.author_name,
            author_email: self.author_email,
            active_branch: self.active_branch,
            last_export_epoch: epoch,
        }
    }

    /// The same record with no branch chosen and nothing exported.
    pub fn fresh(self) -> (r: RepositoryConfig)
        ensures
            r@ == fresh_view(self@),
    {
        proof {
            use_type_invariant(&self);
        }
        RepositoryConfig {
            remote_url: self.remote_url,
            repository_name: self.repository_name,
            author_name: self.author_name,
            author_email: self.author_email,
            active_branch: None,
            last_export_epoch: 0,
        }
    }

    /// A copy of the record.
    pub fn duplicate(&self) -> (r: RepositoryConfig)
        ensures
            r@ == self@,
    {
        proof {
            use_type_invariant(self);
        }
        let active_branch = match &self.active_branch {
            Some(b) => Some(b.clone()),
            None => None,
        };
        RepositoryConfig {
            remote_url: self.remote_url.clone(),
            repository_name: self.repository_name.clone(),
            author_name: self.author_name.clone(),
            author_email: self.author_email.clone(),
            active_branch,
            last_export_epoch: self.last_export_epoch,
        }
    }
}

} // verus!
