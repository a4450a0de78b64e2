//! The user record. A local-only build has no remote user: the record it uses
//! is the local installation user, derived from the installation identity.

use vstd::prelude::*;

use crate::auth::installation_id::{
    hex_digit, hyphenated_position, hyphenated_text, lemma_hyphenated_text_injective,
    lemma_hyphenated_text_layout, InstallationId,
};
use crate::auth::user_uid::UserUid;

verus! {

/// Profile data shown for a user.
pub struct UserMetadata {
    pub email: String,
    pub display_name: Option<String>,
    pub photo_url: Option<String>,
}

/// The kinds of anonymous user that the account service could create.
#[derive(Clone, Copy, Debug, PartialEq, Eq, Structural)]
pub enum AnonymousUserType {
    NativeClientAnonymousUser,
    NativeClientAnonymousUserFeatureGated,
    WebClientAnonymousUser,
}

/// Who a principal is: a person, or a service account.
#[derive(Clone, Copy, Debug, PartialEq, Eq, Structural)]
pub enum PrincipalType {
    User,
    ServiceAccount,
}

/// Limits on the objects a user may own personally.
#[derive(Clone, Copy, Debug, PartialEq, Eq, Structural)]
pub struct PersonalObjectLimits {
    pub env_var_limit: u64,
    pub notebook_limit: u64,
    pub workflow_limit: u64,
}

pub struct User {
    pub is_onboarded: bool,
    pub local_id: UserUid,
    pub metadata: UserMetadata,
    pub needs_sso_link: bool,
    pub anonymous_user_type: Option<AnonymousUserType>,
    pub is_on_work_domain: bool,
    /// When the account was linked, in seconds since the Unix epoch.
    pub linked_at: Option<i64>,
    pub personal_object_limits: Option<PersonalObjectLimits>,
    pub principal_type: PrincipalType,
    pub global_skills: Vec<String>,
}

/// The identifier of the local installation user: a fixed prefix followed by
/// the hyphenated installation identity.
pub open spec fn local_installation_uid(installation_id: Seq<u8>) -> Seq<char> {
    "local-installation-"@ + hyphenated_text(installation_id)
}

/// `user` is the local installation user of `installation_id`: onboarded,
/// never anonymous, not linked to any account or work domain, with the fixed
/// local profile and no skills.
pub open spec fn is_local_installation_user(user: User, installation_id: Seq<u8>) -> bool {
    &&& user.is_onboarded
    &&& user.local_id@ == local_installation_uid(installation_id)
    &&& user.metadata.email@ == "local@warp.local"@
    &&& user.metadata.display_name matches Some(name) && name@ == "Local User"@
    &&& user.metadata.photo_url is None
    &&& !user.needs_sso_link
    &&& user.anonymous_user_type is None
    &&& !user.is_on_work_domain
    &&& user.linked_at is None
    &&& user.personal_object_limits is None
    &&& user.principal_type == PrincipalType::User
    &&& user.global_skills@.len() == 0
}

impl User {
    /// The user of a local installation. No account service is asked: the
    /// record is made from the installation identity alone.
    pub fn local_installation(installation_id: InstallationId) -> (user: User)
        ensures
            is_local_installation_user(user, installation_id@),
            user.local_id@ == "local-installation-"@ + hyphenated_text(installation_id@),
    {
        let mut uid = "local-installation-".to_owned();
        let id_text = installation_id.hyphenated();
        uid.append(id_text.as_str());
        User {
            is_onboarded: true,
            local_id: UserUid::new(uid.as_str()),
            metadata: UserMetadata {
                email: "local@warp.local".to_owned(),
                display_name: Some("Local User".to_owned()),
                photo_url: None,
            },
            needs_sso_link: false,
            anonymous_user_type: None,
            is_on_work_domain: false,
            linked_at: None,
            personal_object_limits: None,
            principal_type: PrincipalType::User,
            global_skills: Vec::new(),
        }
    }

    /// A fixed user record for tests: onboarded, not anonymous, with no
    /// skills.
    pub fn test() -> (user: User)
        ensures
            user.is_onboarded,
            user.local_id@ == "test_user_uid"@,
            user.metadata.email@ == "test_user@warp.dev"@,
            user.metadata.display_name matches Some(name) && name@ == "Test User"@,
            user.metadata.photo_url is None,
            !user.needs_sso_link,
            user.anonymous_user_type is None,
            !user.is_on_work_domain,
            user.linked_at is None,
            user.personal_object_limits is None,
            user.principal_type == PrincipalType::User,
            user.global_skills@.len() == 0,
    {
        User {
            is_onboarded: true,
            local_id: UserUid::new("test_user_uid"),
            metadata: UserMetadata {
                email: "test_user@warp.dev".to_owned(),
                display_name: Some("Test User".to_owned()),
                photo_url: None,
            },
            needs_sso_link: false,
            anonymous_user_type: None,
            is_on_work_domain: false,
            linked_at: None,
            personal_object_limits: None,
            principal_type: PrincipalType::User,
            global_skills: Vec::new(),
        }
    }

    /// Whether the user is one of the account service's anonymous users.
    pub fn is_user_anonymous(&self) -> (anonymous: bool)
        ensures
            anonymous == (self.anonymous_user_type is Some),
    {
        self.anonymous_user_type.is_some()
    }
}

/// The local installation user is never an anonymous user.
pub proof fn lemma_local_installation_user_not_anonymous(user: User, installation_id: Seq<u8>)
    requires
        is_local_installation_user(user, installation_id),
    ensures
        !(user.anonymous_user_type is Some),
{
}

/// The local user identifier is `local-installation-` followed by the
/// installation identity's own hyphenated text: 55 characters, where byte `k`
/// of the identity is written, high nibble first, right after the prefix at
/// its hyphenated position.
pub proof fn lemma_local_installation_uid_layout(installation_id: Seq<u8>)
    requires
        installation_id.len() == 16,
    ensures
        local_installation_uid(installation_id).len() == 55,
        local_installation_uid(installation_id).subrange(0, 19) == "local-installation-"@,
        local_installation_uid(installation_id).subrange(19, 55) == hyphenated_text(installation_id),
        forall|k: int|
            #![trigger installation_id[k]]
            0 <= k < 16 ==> local_installation_uid(installation_id)[19 + hyphenated_position(k)]
                == hex_digit(installation_id[k] as int / 16) && local_installation_uid(
                installation_id,
            )[19 + hyphenated_position(k) + 1] == hex_digit(installation_id[k] as int % 16),
{
    reveal_strlit("local-installation-");
    let uid = local_installation_uid(installation_id);
    lemma_hyphenated_text_layout(installation_id);
    assert(uid.subrange(0, 19) =~= "local-installation-"@);
    assert(uid.subrange(19, 55) =~= hyphenated_text(installation_id));
    assert forall|k: int|
        #![trigger installation_id[k]]
        0 <= k < 16 implies uid[19 + hyphenated_position(k)] == hex_digit(
            installation_id[k] as int / 16,
        ) && uid[19 + hyphenated_position(k) + 1] == hex_digit(installation_id[k] as int % 16) by {
        assert(0 <= hyphenated_position(k) && hyphenated_position(k) + 1 < 36);
        assert(uid[19 + hyphenated_position(k)] == hyphenated_text(installation_id)[hyphenated_position(k)]);
        assert(uid[19 + hyphenated_position(k) + 1] == hyphenated_text(installation_id)[hyphenated_position(k) + 1]);
    }
}

/// Distinct installations get distinct local user identifiers, so local data
/// kept under the identifier is never shared between installations.
pub proof fn lemma_local_installation_uid_injective(a: Seq<u8>, b: Seq<u8>)
    requires
        a.len() == 16,
        b.len() == 16,
        local_installation_uid(a) == local_installation_uid(b),
    ensures
        a == b,
{
    let prefix = "local-installation-"@;
    let ua = local_installation_uid(a);
    let ub = local_installation_uid(b);
    assert(ua.subrange(prefix.len() as int, ua.len() as int) =~= hyphenated_text(a));
    assert(ub.subrange(prefix.len() as int, ub.len() as int) =~= hyphenated_text(b));
    lemma_hyphenated_text_injective(a, b);
}

} // verus!
