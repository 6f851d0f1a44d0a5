//! Accounts on the server side: tiers, roles and the identity providers users sign in with.
use vstd::prelude::*;
use crate::text::{chars_are, str_chars};

verus! {

/// A storage tier that users can subscribe to
#[derive(Debug, Clone)]
pub struct TierConfig {
    pub name: String,
    pub max_storage_bytes: i64,
    pub stripe_price_id: Option<String>,
    pub display_price: Option<String>,
    pub display_frequency: Option<String>,
    pub description: Option<String>,
    pub display_features: Option<Vec<String>>,
    pub is_popular: Option<bool>,
}

/// The role of a user
#[derive(Debug, Clone, Copy, PartialEq, Eq, Structural)]
pub enum UserRole {
    User,
    Admin,
}

/// How a user signs in
#[derive(Debug, Clone, Copy, PartialEq, Eq, Hash, Structural)]
pub enum CredentialProvider {
    Email,
    GitHub,
    Google,
    Discord,
}

impl CredentialProvider {
    /// The provider's name, in lowercase.
    pub open spec fn display(self) -> Seq<char> {
        match self {
            CredentialProvider::Email => "email"@,
            CredentialProvider::GitHub => "github"@,
            CredentialProvider::Google => "google"@,
            CredentialProvider::Discord => "discord"@,
        }
    }

    pub fn to_string(&self) -> (s: String)
        ensures
            s@ == self.display(),
    {
        match self {
            CredentialProvider::Email => "email".to_owned(),
            CredentialProvider::GitHub => "github".to_owned(),
            CredentialProvider::Google => "google".to_owned(),
            CredentialProvider::Discord => "discord".to_owned(),
        }
    }

    /// The provider whose name is exactly `s`.
    pub fn from_str(s: &str) -> (r: Option<Self>)
        ensures
            r matches Some(p) ==> p.display() == s@,
            r is None ==> forall|p: CredentialProvider| #[trigger] p.display() != s@,
    {
        let c = str_chars(s);
        let c = c.as_slice();
        if chars_are(c, "email") {
            Some(CredentialProvider::Email)
        } else if chars_are(c, "github") {
            Some(CredentialProvider::GitHub)
        } else if chars_are(c, "google") {
            Some(CredentialProvider::Google)
        } else if chars_are(c, "discord") {
            Some(CredentialProvider::Discord)
        } else {
            None
        }
    }
}

/// The status of a paid subscription
#[derive(Debug, Clone, Copy, PartialEq, Eq, Hash, Structural)]
pub enum SubscriptionStatus {
    Active,
    Trialing,
    PastDue,
    Incomplete,
    Canceled,
    Unpaid,
    Disputed,
}

impl SubscriptionStatus {
    /// The status's name, in snake case.
    pub open spec fn display(self) -> Seq<char> {
        match self {
            SubscriptionStatus::Active => "active"@,
            SubscriptionStatus::Trialing => "trialing"@,
            SubscriptionStatus::PastDue => "past_due"@,
            SubscriptionStatus::Incomplete => "incomplete"@,
            SubscriptionStatus::Canceled => "canceled"@,
            SubscriptionStatus::Unpaid => "unpaid"@,
            SubscriptionStatus::Disputed => "disputed"@,
        }
    }

    pub fn to_string(&self) -> (s: String)
        ensures
            s@ == self.display(),
    {
        match self {
            SubscriptionStatus::Active => "active".to_owned(),
            SubscriptionStatus::Trialing => "trialing".to_owned(),
            SubscriptionStatus::PastDue => "past_due".to_owned(),
            SubscriptionStatus::Incomplete => "incomplete".to_owned(),
            SubscriptionStatus::Canceled => "canceled".to_owned(),
            SubscriptionStatus::Unpaid => "unpaid".to_owned(),
            SubscriptionStatus::Disputed => "disputed".to_owned(),
        }
    }

    /// The status whose name is exactly `s`.
    pub fn from_str(s: &str) -> (r: Option<Self>)
        ensures
            r matches Some(p) ==> p.display() == s@,
            r is None ==> forall|p: SubscriptionStatus| #[trigger] p.display() != s@,
    {
        let c = str_chars(s);
        let c = c.as_slice();
        if chars_are(c, "active") {
            Some(SubscriptionStatus::Active)
        } else if chars_are(c, "trialing") {
            Some(SubscriptionStatus::Trialing)
        } else if chars_are(c, "past_due") {
            Some(SubscriptionStatus::PastDue)
        } else if chars_are(c, "incomplete") {
            Some(SubscriptionStatus::Incomplete)
        } else if chars_are(c, "canceled") {
            Some(SubscriptionStatus::Canceled)
        } else if chars_are(c, "unpaid") {
            Some(SubscriptionStatus::Unpaid)
        } else if chars_are(c, "disputed") {
            Some(SubscriptionStatus::Disputed)
        } else {
            None
        }
    }
}

/// A GitHub account, as GitHub describes it
#[derive(Debug, Clone)]
pub struct GitHubUser {
    pub id: i64,
    pub login: String,
    pub avatar_url: Option<String>,
}

/// A Google account, as Google describes it
#[derive(Debug, Clone)]
pub struct GoogleUser {
    pub sub: String,
    pub email: String,
    pub name: String,
    pub picture: Option<String>,
}

/// A Discord account, as Discord describes it
#[derive(Debug, Clone)]
pub struct DiscordUser {
    pub id: String,
    pub username: String,
    pub avatar: Option<String>,
    pub email: Option<String>,
}

} // verus!

verus! {

/// A number that tells the names apart: made of the length and the first two and the last
/// characters of the text.
spec fn name_key(s: Seq<char>) -> int {
    ((s.len() * 0x110000 + s[0] as int) * 0x110000 + s[1] as int) * 0x110000 + s[s.len() - 1] as int
}

spec fn provider_of_key(k: int) -> CredentialProvider {
    if k == 6914558168819105900 {
        CredentialProvider::Email
    } else if k == 8297447211885199458 {
        CredentialProvider::GitHub
    } else if k == 8297447211891884133 {
        CredentialProvider::Google
    } else if k == 9680330048728006756 {
        CredentialProvider::Discord
    } else {
        CredentialProvider::Email
    }
}

proof fn lemma_provider_of_key(x: CredentialProvider)
    ensures
        provider_of_key(name_key(x.display())) == x,
{
    match x {
        CredentialProvider::Email => reveal_strlit("email"),
        CredentialProvider::GitHub => reveal_strlit("github"),
        CredentialProvider::Google => reveal_strlit("google"),
        CredentialProvider::Discord => reveal_strlit("discord"),
    }
}

/// Each provider has its own name, so reading a provider's name back gives the provider.
pub proof fn law_provider_names_distinct(p: CredentialProvider, q: CredentialProvider)
    requires
        p.display() == q.display(),
    ensures
        p == q,
{
    lemma_provider_of_key(p);
    lemma_provider_of_key(q);
}

spec fn status_of_key(k: int) -> SubscriptionStatus {
    if k == 8297439764405223525 {
        SubscriptionStatus::Active
    } else if k == 11063236469246263399 {
        SubscriptionStatus::Trialing
    } else if k == 11063231504245129317 {
        SubscriptionStatus::PastDue
    } else if k == 13828995936699678821 {
        SubscriptionStatus::Incomplete
    } else if k == 11063215368052998244 {
        SubscriptionStatus::Canceled
    } else if k == 8297464589328449636 {
        SubscriptionStatus::Unpaid
    } else if k == 11063216609307459684 {
        SubscriptionStatus::Disputed
    } else {
        SubscriptionStatus::Active
    }
}

proof fn lemma_status_of_key(x: SubscriptionStatus)
    ensures
        status_of_key(name_key(x.display())) == x,
{
    match x {
        SubscriptionStatus::Active => reveal_strlit("active"),
        SubscriptionStatus::Trialing => reveal_strlit("trialing"),
        SubscriptionStatus::PastDue => reveal_strlit("past_due"),
        SubscriptionStatus::Incomplete => reveal_strlit("incomplete"),
        SubscriptionStatus::Canceled => reveal_strlit("canceled"),
        SubscriptionStatus::Unpaid => reveal_strlit("unpaid"),
        SubscriptionStatus::Disputed => reveal_strlit("disputed"),
    }
}

/// Each status has its own name, so reading a status's name back gives the status.
pub proof fn law_status_names_distinct(p: SubscriptionStatus, q: SubscriptionStatus)
    requires
        p.display() == q.display(),
    ensures
        p == q,
{
    lemma_status_of_key(p);
    lemma_status_of_key(q);
}

} // verus!
