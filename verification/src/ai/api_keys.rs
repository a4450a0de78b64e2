//! The API keys sent with an AI request, and the Warp-credit fallback setting.

use vstd::prelude::*;

verus! {

/// AWS credentials for Bedrock-hosted models.
pub struct AwsCredentials {
    pub access_key_id: String,
    pub secret_access_key: String,
    pub session_token: String,
}

pub struct AwsCredentialsView {
    pub access_key_id: Seq<char>,
    pub secret_access_key: Seq<char>,
    pub session_token: Seq<char>,
}

impl View for AwsCredentials {
    type V = AwsCredentialsView;

    open spec fn view(&self) -> AwsCredentialsView {
        AwsCredentialsView {
            access_key_id: self.access_key_id@,
            secret_access_key: self.secret_access_key@,
            session_token: self.session_token@,
        }
    }
}

/// The user's own provider keys, and whether Warp credits may be used when
/// they do not suffice. An empty key means that provider is not configured.
pub struct ApiKeys {
    pub anthropic: String,
    pub openai: String,
    pub google: String,
    pub open_router: String,
    pub allow_use_of_warp_credits: bool,
    pub aws_credentials: Option<AwsCredentials>,
}

pub struct ApiKeysView {
    pub anthropic: Seq<char>,
    pub openai: Seq<char>,
    pub google: Seq<char>,
    pub open_router: Seq<char>,
    pub allow_use_of_warp_credits: bool,
    pub aws_credentials: Option<AwsCredentialsView>,
}

impl View for ApiKeys {
    type V = ApiKeysView;

    open spec fn view(&self) -> ApiKeysView {
        ApiKeysView {
            anthropic: self.anthropic@,
            openai: self.openai@,
            google: self.google@,
            open_router: self.open_router@,
            allow_use_of_warp_credits: self.allow_use_of_warp_credits,
            aws_credentials: match self.aws_credentials {
                Some(credentials) => Some(credentials@),
                None => None,
            },
        }
    }
}

/// No provider key and no AWS credentials; Warp credits not allowed.
pub open spec fn no_api_keys() -> ApiKeysView {
    ApiKeysView {
        anthropic: Seq::empty(),
        openai: Seq::empty(),
        google: Seq::empty(),
        open_router: Seq::empty(),
        allow_use_of_warp_credits: false,
        aws_credentials: None,
    }
}

pub open spec fn api_keys_view(api_keys: Option<ApiKeys>) -> Option<ApiKeysView> {
    match api_keys {
        Some(keys) => Some(keys@),
        None => None,
    }
}

/// The keys sent with a request under the Warp-credit fallback setting: the
/// user's keys with the setting written into them; without keys, keys that
/// hold only the setting when it allows Warp credits, and nothing otherwise.
pub open spec fn with_warp_credit_fallback(api_keys: Option<ApiKeysView>, allow: bool) -> Option<
    ApiKeysView,
> {
    match api_keys {
        Some(keys) => Some(ApiKeysView { allow_use_of_warp_credits: allow, ..keys }),
        None => if allow {
            Some(ApiKeysView { allow_use_of_warp_credits: true, ..no_api_keys() })
        } else {
            None
        },
    }
}

impl Default for ApiKeys {
    fn default() -> (keys: Self)
        ensures
            keys@ == no_api_keys(),
    {
        ApiKeys {
            anthropic: String::new(),
            openai: String::new(),
            google: String::new(),
            open_router: String::new(),
            allow_use_of_warp_credits: false,
            aws_credentials: None,
        }
    }
}

/// Applies the Warp-credit fallback setting to the user's API keys.
pub fn api_keys_with_warp_credit_fallback_setting(
    api_keys: Option<ApiKeys>,
    allow_use_of_warp_credits: bool,
) -> (result: Option<ApiKeys>)
    ensures
        api_keys_view(result) == with_warp_credit_fallback(
            api_keys_view(api_keys),
            allow_use_of_warp_credits,
        ),
        api_keys matches Some(keys) ==> result == Some(
            ApiKeys { allow_use_of_warp_credits: allow_use_of_warp_credits, ..keys },
        ),
        api_keys is None && !allow_use_of_warp_credits ==> result is None,
        api_keys is None && allow_use_of_warp_credits ==> (result matches Some(sent) && {
            &&& sent.allow_use_of_warp_credits
            &&& sent.anthropic@.len() == 0
            &&& sent.openai@.len() == 0
            &&& sent.google@.len() == 0
            &&& sent.open_router@.len() == 0
            &&& sent.aws_credentials is None
        }),
{
    match api_keys {
        Some(mut keys) => {
            keys.allow_use_of_warp_credits = allow_use_of_warp_credits;
            Some(keys)
        },
        None => {
            if allow_use_of_warp_credits {
                let mut keys = ApiKeys::default();
                keys.allow_use_of_warp_credits = true;
                Some(keys)
            } else {
                None
            }
        },
    }
}

/// The view of given keys is the keys themselves, field by field: every
/// provider key and every part of the AWS credentials is kept, none dropped.
pub proof fn lemma_api_keys_view_is_field_by_field(keys: ApiKeys)
    ensures
        api_keys_view(Some(keys)) == Some(keys@),
        keys@.anthropic == keys.anthropic@,
        keys@.openai == keys.openai@,
        keys@.google == keys.google@,
        keys@.open_router == keys.open_router@,
        keys@.allow_use_of_warp_credits == keys.allow_use_of_warp_credits,
        (keys@.aws_credentials is Some) <==> (keys.aws_credentials is Some),
        keys.aws_credentials matches Some(credentials) ==> keys@.aws_credentials == Some(
            AwsCredentialsView {
                access_key_id: credentials.access_key_id@,
                secret_access_key: credentials.secret_access_key@,
                session_token: credentials.session_token@,
            },
        ),
        api_keys_view(None) is None,
{
}

/// Given keys come back with every provider key and all AWS credentials
/// unchanged, only the setting written into them; without keys, nothing but
/// the setting is sent, and only when it allows Warp credits.
pub proof fn lemma_warp_credit_fallback_on_given_keys(keys: ApiKeys, allow: bool)
    ensures
        with_warp_credit_fallback(api_keys_view(Some(keys)), allow) == Some(
            ApiKeysView { allow_use_of_warp_credits: allow, ..keys@ },
        ),
        with_warp_credit_fallback(api_keys_view(Some(keys)), allow) matches Some(sent) && {
            &&& sent.anthropic == keys.anthropic@
            &&& sent.openai == keys.openai@
            &&& sent.google == keys.google@
            &&& sent.open_router == keys.open_router@
            &&& sent.allow_use_of_warp_credits == allow
            &&& (sent.aws_credentials is Some) <==> (keys.aws_credentials is Some)
            &&& keys.aws_credentials matches Some(credentials) ==> sent.aws_credentials == Some(
                AwsCredentialsView {
                    access_key_id: credentials.access_key_id@,
                    secret_access_key: credentials.secret_access_key@,
                    session_token: credentials.session_token@,
                },
            )
        },
        with_warp_credit_fallback(api_keys_view(None), allow) is None <==> !allow,
{
}

/// Applying the setting twice is applying it once.
pub proof fn lemma_warp_credit_fallback_idempotent(api_keys: Option<ApiKeysView>, allow: bool)
    ensures
        with_warp_credit_fallback(with_warp_credit_fallback(api_keys, allow), allow)
            == with_warp_credit_fallback(api_keys, allow),
{
}

/// Keys are sent exactly when the user has keys or allows Warp credits, and
/// keys that are sent always carry the setting.
pub proof fn lemma_warp_credit_fallback_honours_setting(api_keys: Option<ApiKeysView>, allow: bool)
    ensures
        (with_warp_credit_fallback(api_keys, allow) is None) <==> (api_keys is None && !allow),
        with_warp_credit_fallback(api_keys, allow) matches Some(sent)
            ==> sent.allow_use_of_warp_credits == allow,
{
}

/// The setting never changes the user's own keys, and never makes one up.
pub proof fn lemma_warp_credit_fallback_keeps_keys(api_keys: Option<ApiKeysView>, allow: bool)
    ensures
        with_warp_credit_fallback(api_keys, allow) matches Some(sent) ==> {
            let own = match api_keys {
                Some(keys) => keys,
                None => no_api_keys(),
            };
            &&& sent.anthropic == own.anthropic
            &&& sent.openai == own.openai
            &&& sent.google == own.google
            &&& sent.open_router == own.open_router
            &&& sent.aws_credentials == own.aws_credentials
        },
{
}

} // verus!
