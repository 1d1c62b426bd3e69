//! The AI providers the platform can talk to, the settings a client is
//! made with, and where each provider is reached.
use vstd::prelude::*;
use crate::text::{owned, push_str, str_eq};
use crate::unicode::{lowercase, to_lowercase};

verus! {

/// A provider of chat completions.
#[derive(Debug, Clone, Copy, PartialEq, Eq, Structural)]
pub enum AiProvider {
    Claude,
    OpenAi,
    Gemini,
    Moonshot,
}

impl Default for AiProvider {
    fn default() -> (r: Self)
        ensures
            r == AiProvider::Claude,
    {
        AiProvider::Claude
    }
}

/// The provider a configured name selects, ignoring case: `openai`,
/// `gemini` and `moonshot` select those; anything else selects the
/// Anthropic provider.
pub open spec fn spec_provider(name: Seq<char>) -> AiProvider {
    let l = lowercase(name);
    if l == "openai"@ {
        AiProvider::OpenAi
    } else if l == "gemini"@ {
        AiProvider::Gemini
    } else if l == "moonshot"@ {
        AiProvider::Moonshot
    } else {
        AiProvider::Claude
    }
}

/// The provider a configured name selects.
pub fn provider_from_name(name: &str) -> (r: AiProvider)
    ensures
        r == spec_provider(name@),
{
    let l = to_lowercase(name);
    if str_eq(l.as_str(), "openai") {
        AiProvider::OpenAi
    } else if str_eq(l.as_str(), "gemini") {
        AiProvider::Gemini
    } else if str_eq(l.as_str(), "moonshot") {
        AiProvider::Moonshot
    } else {
        AiProvider::Claude
    }
}

impl std::str::FromStr for AiProvider {
    type Err = ();

    fn from_str(s: &str) -> (r: Result<Self, ()>)
        ensures
            r == Ok::<AiProvider, ()>(spec_provider(s@)),
    {
        Ok(provider_from_name(s))
    }
}

/// The model used with a provider unless one is configured. The crate
/// holds no built-in model name for the Anthropic provider: its model is
/// always configured.
pub open spec fn spec_default_model(p: AiProvider) -> Option<Seq<char>> {
    match p {
        AiProvider::Claude => None,
        AiProvider::OpenAi => Some("gpt-4o"@),
        AiProvider::Gemini => Some("gemini-2.0-flash"@),
        AiProvider::Moonshot => Some("moonshot-v1-8k"@),
    }
}

/// The settings an AI client works with.
pub struct AiSettings {
    pub provider: AiProvider,
    pub api_key: String,
    pub model: String,
    pub max_tokens: u32,
}

/// The settings of a client: the configured model (else the provider's
/// default) and token limit (else 2048); none when no model is configured
/// and the provider has no default here.
pub fn ai_settings(provider: AiProvider, api_key: String, model: Option<String>, max_tokens: Option<u32>) -> (r:
    Option<AiSettings>)
    ensures
        match model {
            Some(m) => r matches Some(s) && s.model@ == m@,
            None => match spec_default_model(provider) {
                Some(d) => r matches Some(s) && s.model@ == d,
                None => r is None,
            },
        },
        r matches Some(s) ==> s.provider == provider && s.api_key == api_key && s.max_tokens
            == match max_tokens {
            Some(n) => n,
            None => 2048u32,
        },
{
    let model = match model {
        Some(m) => m,
        None => match provider {
            AiProvider::Claude => {
                return None;
            },
            AiProvider::OpenAi => owned("gpt-4o"),
            AiProvider::Gemini => owned("gemini-2.0-flash"),
            AiProvider::Moonshot => owned("moonshot-v1-8k"),
        },
    };
    let max_tokens = match max_tokens {
        Some(n) => n,
        None => 2048,
    };
    Some(AiSettings { provider, api_key, model, max_tokens })
}

/// Where a provider's chat completions are asked for; Gemini takes the
/// model and the key in the URL.
pub open spec fn spec_endpoint(s: AiSettings) -> Seq<char> {
    match s.provider {
        AiProvider::Claude => "https://api.anthropic.com/v1/messages"@,
        AiProvider::OpenAi => "https://api.openai.com/v1/chat/completions"@,
        AiProvider::Moonshot => "https://api.moonshot.cn/v1/chat/completions"@,
        AiProvider::Gemini => "https://generativelanguage.googleapis.com/v1beta/models/"@ + s.model@
            + ":generateContent?key="@ + s.api_key@,
    }
}

/// Where a provider's chat completions are asked for.
pub fn endpoint(s: &AiSettings) -> (r: String)
    ensures
        r@ == spec_endpoint(*s),
{
    match s.provider {
        AiProvider::Claude => owned("https://api.anthropic.com/v1/messages"),
        AiProvider::OpenAi => owned("https://api.openai.com/v1/chat/completions"),
        AiProvider::Moonshot => owned("https://api.moonshot.cn/v1/chat/completions"),
        AiProvider::Gemini => {
            let mut u = owned("https://generativelanguage.googleapis.com/v1beta/models/");
            push_str(&mut u, s.model.as_str());
            push_str(&mut u, ":generateContent?key=");
            push_str(&mut u, s.api_key.as_str());
            u
        },
    }
}

/// The concatenation of texts, in order.
pub open spec fn concat_all(texts: Seq<Seq<char>>) -> Seq<char>
    decreases texts.len(),
{
    if texts.len() == 0 {
        seq![]
    } else {
        concat_all(texts.drop_last()) + texts.last()
    }
}

/// The text of an Anthropic answer: its content blocks joined.
pub fn join_blocks(blocks: &Vec<String>) -> (r: String)
    ensures
        r@ == concat_all(blocks@.map_values(|b: String| b@)),
{
    let ghost bv = blocks@.map_values(|b: String| b@);
    let mut r = String::new();
    let mut i: usize = 0;
    assert(bv.take(0) =~= Seq::<Seq<char>>::empty());
    while i < blocks.len()
        invariant
            bv == blocks@.map_values(|b: String| b@),
            i <= blocks@.len(),
            r@ == concat_all(bv.take(i as int)),
        decreases blocks.len() - i,
    {
        push_str(&mut r, blocks[i].as_str());
        assert(bv.take(i + 1).drop_last() =~= bv.take(i as int));
        i = i + 1;
    }
    assert(bv.take(bv.len() as int) =~= bv);
    r
}

} // verus!
