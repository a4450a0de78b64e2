//! Resolution of the selected model to one of the user's own OpenAI-compatible
//! providers. A local-only build sends AI requests only to a provider the user
//! configured, so a model is usable only if some provider lists its key.

use vstd::prelude::*;

verus! {

/// A model offered by a custom provider: the provider's name for it (`slug`)
/// and the key under which it is selected (`config_key`).
pub struct CustomModel {
    pub slug: String,
    pub config_key: String,
}

pub struct CustomModelView {
    pub slug: Seq<char>,
    pub config_key: Seq<char>,
}

impl View for CustomModel {
    type V = CustomModelView;

    open spec fn view(&self) -> CustomModelView {
        CustomModelView { slug: self.slug@, config_key: self.config_key@ }
    }
}

/// An OpenAI-compatible endpoint configured by the user.
pub struct CustomModelProvider {
    pub base_url: String,
    pub api_key: String,
    pub models: Vec<CustomModel>,
}

pub struct CustomModelProviderView {
    pub base_url: Seq<char>,
    pub api_key: Seq<char>,
    pub models: Seq<CustomModelView>,
}

impl View for CustomModelProvider {
    type V = CustomModelProviderView;

    open spec fn view(&self) -> CustomModelProviderView {
        CustomModelProviderView {
            base_url: self.base_url@,
            api_key: self.api_key@,
            models: self.models@.map_values(|model: CustomModel| model@),
        }
    }
}

/// The user's custom providers, in the order they were configured.
pub struct CustomModelProviders {
    pub providers: Vec<CustomModelProvider>,
}

impl View for CustomModelProviders {
    type V = Seq<CustomModelProviderView>;

    open spec fn view(&self) -> Seq<CustomModelProviderView> {
        self.providers@.map_values(|provider: CustomModelProvider| provider@)
    }
}

/// The identifier of a selected language model.
pub struct LLMId {
    id: String,
}

impl View for LLMId {
    type V = Seq<char>;

    closed spec fn view(&self) -> Seq<char> {
        self.id@
    }
}

impl LLMId {
    pub fn new(id: &str) -> (llm_id: Self)
        ensures
            llm_id@ == id@,
    {
        LLMId { id: id.to_owned() }
    }

    pub fn as_str(&self) -> (id: &str)
        ensures
            id@ == self@,
    {
        self.id.as_str()
    }
}

/// What model resolution reads of a request: the selected model and the
/// user's custom providers, if any are configured.
pub struct RequestParams {
    pub model: LLMId,
    pub custom_model_providers: Option<CustomModelProviders>,
}

/// Where a request for a resolved model goes, with which key, under which
/// model name.
pub struct CustomProviderModel {
    pub base_url: String,
    pub api_key: String,
    pub model_slug: String,
}

pub struct CustomProviderModelView {
    pub base_url: Seq<char>,
    pub api_key: Seq<char>,
    pub model_slug: Seq<char>,
}

impl View for CustomProviderModel {
    type V = CustomProviderModelView;

    open spec fn view(&self) -> CustomProviderModelView {
        CustomProviderModelView {
            base_url: self.base_url@,
            api_key: self.api_key@,
            model_slug: self.model_slug@,
        }
    }
}

/// The configured providers; none when custom providers are not set up.
pub open spec fn configured_providers(providers: Option<CustomModelProviders>) -> Seq<
    CustomModelProviderView,
> {
    match providers {
        Some(providers) => providers@,
        None => Seq::empty(),
    }
}

/// Model `j` of provider `i` is selected by `key`.
pub open spec fn is_match(providers: Seq<CustomModelProviderView>, key: Seq<char>, i: int, j: int) -> bool {
    &&& 0 <= i < providers.len()
    &&& 0 <= j < providers[i].models.len()
    &&& providers[i].models[j].config_key == key
}

/// Model `j` of provider `i` is the first match for `key`: providers in
/// configuration order, and models in order within a provider.
pub open spec fn is_first_match(
    providers: Seq<CustomModelProviderView>,
    key: Seq<char>,
    i: int,
    j: int,
) -> bool {
    &&& is_match(providers, key, i, j)
    &&& forall|i2: int, j2: int|
        #[trigger] is_match(providers, key, i2, j2) ==> i < i2 || (i == i2 && j <= j2)
}

pub open spec fn resolved_at(providers: Seq<CustomModelProviderView>, i: int, j: int) -> CustomProviderModelView {
    CustomProviderModelView {
        base_url: providers[i].base_url,
        api_key: providers[i].api_key,
        model_slug: providers[i].models[j].slug,
    }
}

/// The model that `key` selects: the first configured model whose config key
/// is `key`, served by its provider; none if no configured model has it.
pub open spec fn resolution(providers: Seq<CustomModelProviderView>, key: Seq<char>) -> Option<
    CustomProviderModelView,
> {
    if exists|i: int, j: int| is_first_match(providers, key, i, j) {
        let (i, j) = choose|i: int, j: int| is_first_match(providers, key, i, j);
        Some(resolved_at(providers, i, j))
    } else {
        None
    }
}

pub open spec fn resolution_view(resolved: Option<CustomProviderModel>) -> Option<CustomProviderModelView> {
    match resolved {
        Some(model) => Some(model@),
        None => None,
    }
}

/// There is at most one first match.
pub proof fn lemma_first_match_unique(
    providers: Seq<CustomModelProviderView>,
    key: Seq<char>,
    i: int,
    j: int,
    i2: int,
    j2: int,
)
    requires
        is_first_match(providers, key, i, j),
        is_first_match(providers, key, i2, j2),
    ensures
        i == i2 && j == j2,
{
    assert(is_match(providers, key, i2, j2));
    assert(is_match(providers, key, i, j));
}

/// A first match determines the resolution.
pub proof fn lemma_resolution_at_first_match(
    providers: Seq<CustomModelProviderView>,
    key: Seq<char>,
    i: int,
    j: int,
)
    requires
        is_first_match(providers, key, i, j),
    ensures
        resolution(providers, key) == Some(resolved_at(providers, i, j)),
{
    let (ci, cj) = choose|i: int, j: int| is_first_match(providers, key, i, j);
    lemma_first_match_unique(providers, key, i, j, ci, cj);
}

/// Any match is preceded by (or is) a first match.
proof fn lemma_first_match_exists(providers: Seq<CustomModelProviderView>, key: Seq<char>, i: int, j: int)
    requires
        is_match(providers, key, i, j),
    ensures
        exists|a: int, b: int| is_first_match(providers, key, a, b),
    decreases i, j,
{
    if exists|i2: int, j2: int|
        is_match(providers, key, i2, j2) && (i2 < i || (i2 == i && j2 < j)) {
        let (i2, j2) = choose|i2: int, j2: int|
            is_match(providers, key, i2, j2) && (i2 < i || (i2 == i && j2 < j));
        lemma_first_match_exists(providers, key, i2, j2);
    } else {
        assert forall|i2: int, j2: int| #[trigger]
            is_match(providers, key, i2, j2) implies i < i2 || (i == i2 && j <= j2) by {
            if !(i < i2 || (i == i2 && j <= j2)) {
                assert(is_match(providers, key, i2, j2) && (i2 < i || (i2 == i && j2 < j)));
            }
        }
        assert(is_first_match(providers, key, i, j));
    }
}

/// A model resolves exactly when some configured provider lists a model
/// under the selected key; a model listed under another key is never chosen.
pub proof fn lemma_resolution_exists_iff_configured(
    providers: Seq<CustomModelProviderView>,
    key: Seq<char>,
)
    ensures
        (resolution(providers, key) is Some) <==> (exists|i: int, j: int|
            is_match(providers, key, i, j)),
        resolution(providers, key) matches Some(resolved) ==> exists|i: int, j: int|
            is_match(providers, key, i, j) && resolved == resolved_at(providers, i, j),
{
    if exists|i: int, j: int| is_match(providers, key, i, j) {
        let (i, j) = choose|i: int, j: int| is_match(providers, key, i, j);
        lemma_first_match_exists(providers, key, i, j);
    }
    if resolution(providers, key) is Some {
        let (i, j) = choose|i: int, j: int| is_first_match(providers, key, i, j);
        assert(is_match(providers, key, i, j));
    }
}

/// Providers configured after the one that serves a model never take it
/// over: the first configured match wins.
pub proof fn lemma_resolution_kept_by_later_providers(
    providers: Seq<CustomModelProviderView>,
    later: Seq<CustomModelProviderView>,
    key: Seq<char>,
)
    requires
        resolution(providers, key) is Some,
    ensures
        resolution(providers + later, key) == resolution(providers, key),
{
    let all = providers + later;
    let (i, j) = choose|i: int, j: int| is_first_match(providers, key, i, j);
    assert(is_first_match(providers, key, i, j));
    assert(all[i] == providers[i]);
    assert forall|i2: int, j2: int| #[trigger]
        is_match(all, key, i2, j2) implies i < i2 || (i == i2 && j <= j2) by {
        if i2 < providers.len() {
            assert(all[i2] == providers[i2]);
            assert(is_match(providers, key, i2, j2));
        }
    }
    assert(is_first_match(all, key, i, j));
    lemma_resolution_at_first_match(all, key, i, j);
    lemma_resolution_at_first_match(providers, key, i, j);
}

/// Provider `i` of the configured providers lists, as its model `j`, a model
/// whose config key is `key`.
pub open spec fn lists_model(configured: CustomModelProviders, key: Seq<char>, i: int, j: int) -> bool {
    &&& 0 <= i < configured.providers@.len()
    &&& 0 <= j < configured.providers@[i].models@.len()
    &&& configured.providers@[i].models@[j].config_key@ == key
}

/// Resolution searches every configured provider, the first one included, in
/// the order they were configured: a key resolves exactly when some provider
/// lists a model under it, and then to the first such provider and model
/// (base URL and API key of the provider, slug of the model). Without custom
/// providers nothing resolves.
pub proof fn lemma_resolution_searches_every_configured_provider(
    configured: CustomModelProviders,
    key: Seq<char>,
)
    ensures
        configured_providers(Some(configured)).len() == configured.providers@.len(),
        forall|i: int, j: int|
            #[trigger] is_match(configured_providers(Some(configured)), key, i, j) <==> lists_model(
                configured,
                key,
                i,
                j,
            ),
        (resolution(configured_providers(Some(configured)), key) is Some) <==> (exists|
            i: int,
            j: int,
        | lists_model(configured, key, i, j)),
        resolution(configured_providers(Some(configured)), key) matches Some(resolved) ==> exists|
            i: int,
            j: int,
        |
            {
                &&& lists_model(configured, key, i, j)
                &&& forall|i2: int, j2: int| #[trigger]
                    lists_model(configured, key, i2, j2) ==> i < i2 || (i == i2 && j <= j2)
                &&& resolved.base_url == configured.providers@[i].base_url@
                &&& resolved.api_key == configured.providers@[i].api_key@
                &&& resolved.model_slug == configured.providers@[i].models@[j].slug@
            },
        resolution(configured_providers(None), key) is None,
{
    let ps = configured_providers(Some(configured));
    assert(ps == configured.providers@.map_values(|provider: CustomModelProvider| provider@));
    assert forall|i: int, j: int| #[trigger] is_match(ps, key, i, j) <==> lists_model(configured, key, i, j) by {
        if 0 <= i < ps.len() {
            assert(ps[i] == configured.providers@[i]@);
            if 0 <= j < ps[i].models.len() {
                assert(ps[i].models[j] == configured.providers@[i].models@[j]@);
            }
        }
    }
    lemma_resolution_exists_iff_configured(ps, key);
    if exists|i: int, j: int| lists_model(configured, key, i, j) {
        let (a, b) = choose|i: int, j: int| lists_model(configured, key, i, j);
        assert(is_match(ps, key, a, b));
    }
    if resolution(ps, key) is Some {
        let (i, j) = choose|i: int, j: int| is_first_match(ps, key, i, j);
        assert(is_first_match(ps, key, i, j));
        assert(is_match(ps, key, i, j));
        assert(ps[i] == configured.providers@[i]@);
        assert(ps[i].models[j] == configured.providers@[i].models@[j]@);
        assert forall|i2: int, j2: int| #[trigger]
            lists_model(configured, key, i2, j2) implies i < i2 || (i == i2 && j <= j2) by {
            assert(is_match(ps, key, i2, j2));
        }
    }
    let empty = configured_providers(None);
    assert forall|i: int, j: int| !is_first_match(empty, key, i, j) by {}
}

/// Resolves the selected model to the custom provider that serves it.
pub fn resolve_custom_provider_model(params: &RequestParams) -> (resolved: Option<CustomProviderModel>)
    ensures
        resolution_view(resolved) == resolution(
            configured_providers(params.custom_model_providers),
            params.model@,
        ),
        params.custom_model_providers is None ==> resolved is None,
        params.custom_model_providers matches Some(configured) ==> ((resolved is Some) <==> exists|
            i: int,
            j: int,
        | lists_model(configured, params.model@, i, j)),
        resolved matches Some(model) ==> (params.custom_model_providers matches Some(configured)
            && exists|i: int, j: int|
            {
                &&& lists_model(configured, params.model@, i, j)
                &&& forall|i2: int, j2: int| #[trigger]
                    lists_model(configured, params.model@, i2, j2) ==> i < i2 || (i == i2 && j
                        <= j2)
                &&& model.base_url@ == configured.providers@[i].base_url@
                &&& model.api_key@ == configured.providers@[i].api_key@
                &&& model.model_slug@ == configured.providers@[i].models@[j].slug@
            }),
{
    let ghost key = params.model@;
    let providers = match &params.custom_model_providers {
        Some(configured) => &configured.providers,
        None => {
            return None;
        },
    };
    let ghost ps = configured_providers(params.custom_model_providers);
    assert(ps == providers@.map_values(|provider: CustomModelProvider| provider@));
    let mut i: usize = 0;
    while i < providers.len()
        invariant
            0 <= i <= providers.len(),
            ps == providers@.map_values(|provider: CustomModelProvider| provider@),
            key == params.model@,
            ps == configured_providers(params.custom_model_providers),
            forall|i2: int, j2: int| 0 <= i2 < i ==> !#[trigger] is_match(ps, key, i2, j2),
        decreases providers.len() - i,
    {
        let provider = &providers[i];
        assert(ps[i as int] == provider@);
        let mut j: usize = 0;
        while j < provider.models.len()
            invariant
                0 <= i < providers.len(),
                0 <= j <= provider.models.len(),
                *provider == providers@[i as int],
                ps == providers@.map_values(|provider: CustomModelProvider| provider@),
                ps[i as int] == provider@,
                key == params.model@,
                ps == configured_providers(params.custom_model_providers),
                forall|i2: int, j2: int| 0 <= i2 < i ==> !#[trigger] is_match(ps, key, i2, j2),
                forall|j2: int| 0 <= j2 < j ==> !#[trigger] is_match(ps, key, i as int, j2),
            decreases provider.models.len() - j,
        {
            let model = &provider.models[j];
            assert(ps[i as int].models[j as int] == model@);
            if model.config_key == params.model.id {
                proof {
                    assert(is_match(ps, key, i as int, j as int));
                    assert forall|i2: int, j2: int| #[trigger]
                        is_match(ps, key, i2, j2) implies (i < i2 || (i == i2 && j <= j2)) by {
                        if i2 < i {
                        } else if i2 == i && j2 < j {
                        }
                    }
                    assert(is_first_match(ps, key, i as int, j as int));
                    lemma_resolution_at_first_match(ps, key, i as int, j as int);
                    if params.custom_model_providers is Some {
                        lemma_resolution_searches_every_configured_provider(
                            params.custom_model_providers->0,
                            params.model@,
                        );
                    }
                }
                return Some(
                    CustomProviderModel {
                        base_url: provider.base_url.clone(),
                        api_key: provider.api_key.clone(),
                        model_slug: model.slug.clone(),
                    },
                );
            }
            j += 1;
        }
        i += 1;
    }
    proof {
        assert forall|i2: int, j2: int| !is_first_match(ps, key, i2, j2) by {
            if 0 <= i2 < ps.len() {
                assert(!is_match(ps, key, i2, j2));
            }
        }
        if params.custom_model_providers is Some {
            lemma_resolution_searches_every_configured_provider(
                params.custom_model_providers->0,
                params.model@,
            );
        }
    }
    None
}

} // verus!
