//! The decisions of composing the gateway from its environment: which
//! planner the engine uses, which scoring backends a configuration names,
//! when the identity provider and the enterprise proxy are enabled and with
//! what settings, and which tool schemas the served descriptors declare.
//! Reading the environment and building the services happen in the
//! application.

use vstd::prelude::*;
use vstd::string::StringExecFns;
use crate::json::{Json, JsonV};
use crate::text::{chars_of, str_eq, trim_chars, trimmed};
use crate::mcp_server::value::{ToolSchema, ToolSchemaV};

verus! {

// ── Decimal numbers ─────────────────────────────────────────────────────

/// The value of a decimal digit character.
pub open spec fn digit_value(c: char) -> int {
    c as int - '0' as int
}

/// Whether `c` is a decimal digit.
pub open spec fn is_digit(c: char) -> bool {
    '0' <= c && c <= '9'
}

/// The number the digits of `s` write.
pub open spec fn digits_value(s: Seq<char>) -> int
    decreases s.len(),
{
    if s.len() == 0 {
        0
    } else {
        digits_value(s.drop_last()) * 10 + digit_value(s.last())
    }
}

/// The digits of an unsigned number's text: without its one optional `+`.
pub open spec fn unsigned_digits(s: Seq<char>) -> Seq<char> {
    if s.len() > 0 && s[0] == '+' {
        s.skip(1)
    } else {
        s
    }
}

/// The `u64` a text writes, as `str::parse::<u64>` reads it: an optional
/// `+`, then at least one decimal digit and nothing else, within range.
pub open spec fn u64_of(s: Seq<char>) -> Option<u64> {
    let d = unsigned_digits(s);
    if d.len() > 0 && (forall|i: int| 0 <= i < d.len() ==> is_digit(#[trigger] d[i]))
        && digits_value(d) <= u64::MAX {
        Some(digits_value(d) as u64)
    } else {
        None
    }
}

proof fn lemma_digits_value_nonneg(s: Seq<char>)
    requires
        forall|i: int| 0 <= i < s.len() ==> is_digit(#[trigger] s[i]),
    ensures
        digits_value(s) >= 0,
    decreases s.len(),
{
    if s.len() > 0 {
        assert forall|i: int| 0 <= i < s.drop_last().len() implies is_digit(
            #[trigger] s.drop_last()[i],
        ) by {
            assert(s.drop_last()[i] == s[i]);
        }
        lemma_digits_value_nonneg(s.drop_last());
    }
}

/// Reads an unsigned number as `str::parse::<u64>` does.
pub fn parse_u64(s: &str) -> (r: Option<u64>)
    ensures
        r == u64_of(s@),
{
    let cs = chars_of(s);
    let start: usize = if cs.len() > 0 && cs[0] == '+' { 1 } else { 0 };
    let ghost d = unsigned_digits(s@);
    assert(d =~= cs@.skip(start as int));
    if start >= cs.len() {
        return None;
    }
    let mut value: u64 = 0;
    let mut i: usize = start;
    while i < cs.len()
        invariant
            cs@ == s@,
            d == cs@.skip(start as int),
            d == unsigned_digits(s@),
            start <= i <= cs.len(),
            forall|k: int| 0 <= k < i - start ==> is_digit(#[trigger] d[k]),
            value == digits_value(d.subrange(0, i - start)),
        decreases cs.len() - i,
    {
        let c = cs[i];
        let ghost pre = d.subrange(0, i - start);
        assert(d.subrange(0, i - start + 1).drop_last() =~= pre);
        assert(d[i - start] == c);
        if !('0' <= c && c <= '9') {
            assert(!is_digit(d[i - start]));
            return None;
        }
        let digit: u64 = (c as u32 - '0' as u32) as u64;
        proof {
            assert forall|k: int| 0 <= k < pre.len() implies is_digit(#[trigger] pre[k]) by {
                assert(pre[k] == d[k]);
            }
            lemma_digits_value_nonneg(pre);
        }
        if value > (u64::MAX - digit) / 10 {
            proof {
                assert(digits_value(d.subrange(0, i - start + 1)) == value * 10 + digit);
                assert(value * 10 + digit > u64::MAX) by (nonlinear_arith)
                    requires
                        value > (u64::MAX - digit) / 10,
                        digit <= 9,
                ;
                lemma_prefix_bound(d, i - start + 1);
            }
            return None;
        }
        proof {
            assert(value * 10 + digit <= u64::MAX) by (nonlinear_arith)
                requires
                    value <= (u64::MAX - digit) / 10,
                    digit <= 9,
            ;
        }
        value = value * 10 + digit;
        i = i + 1;
    }
    assert(d.subrange(0, d.len() as int) =~= d);
    Some(value)
}

/// A number whose leading digits already exceed a bound exceeds it too.
proof fn lemma_prefix_bound(d: Seq<char>, n: int)
    requires
        0 < n <= d.len(),
        digits_value(d.subrange(0, n)) > u64::MAX,
    ensures
        (forall|i: int| 0 <= i < d.len() ==> is_digit(#[trigger] d[i])) ==> digits_value(d)
            > u64::MAX,
    decreases d.len() - n,
{
    if forall|i: int| 0 <= i < d.len() ==> is_digit(#[trigger] d[i]) {
        if n < d.len() {
            let p = d.subrange(0, n + 1);
            assert(p.drop_last() =~= d.subrange(0, n));
            assert(is_digit(d[n]));
            assert(digits_value(p) == digits_value(d.subrange(0, n)) * 10 + digit_value(d[n]));
            assert(digits_value(p) > u64::MAX) by (nonlinear_arith)
                requires
                    digits_value(d.subrange(0, n)) > u64::MAX,
                    digits_value(p) == digits_value(d.subrange(0, n)) * 10 + digit_value(d[n]),
                    digit_value(d[n]) >= 0,
            ;
            lemma_prefix_bound(d, n + 1);
        } else {
            assert(d.subrange(0, n) =~= d);
        }
    }
}

// ── Planning ────────────────────────────────────────────────────────────

/// How the engine classifies intents.
#[derive(Debug)]
pub enum ClassifierSetup {
    /// The built-in matcher, without a model.
    Mock,
    /// Anthropic's messages API with the given key, and the configured
    /// model where one is set (`None`: the planner's default model).
    Anthropic { key: String, model: Option<String> },
    /// OpenAI's chat completions API with the given key and model.
    OpenAi { key: String, model: String },
}

/// How the engine extracts parameters.
#[derive(Debug)]
pub enum ExtractorSetup {
    /// The built-in extractor, without a model.
    Mock,
    /// A model behind the given endpoint; `model` is the configured one
    /// where one is set (`None`: the planner's default model).
    Llm { key: String, api_url: String, model: Option<String>, anthropic: bool },
}

/// Whether the mock-planning switch is on: "1" or "true" in any ASCII case.
pub open spec fn mock_switch_on(flag: Option<Seq<char>>) -> bool {
    match flag {
        Some(f) => f == "1"@ || crate::text::eq_ignoring_ascii_case(f, "true"@),
        None => false,
    }
}

/// The model the planner uses: the configured one, else the default.
pub open spec fn model_or(model: Option<Seq<char>>, default: Seq<char>) -> Seq<char> {
    match model {
        Some(m) => m,
        None => default,
    }
}

/// Whether the mock-planning switch is on.
pub fn mock_planning(flag: Option<&str>) -> (r: bool)
    ensures
        r == mock_switch_on(
            match flag {
                Some(f) => Some(f@),
                None => None,
            },
        ),
{
    match flag {
        Some(f) => str_eq(f, "1") || crate::text::eq_ignore_ascii_case(f, "true"),
        None => false,
    }
}

fn copy_opt(s: Option<&str>) -> (r: Option<String>)
    ensures
        match s {
            Some(t) => r matches Some(u) && u@ == t@,
            None => r is None,
        },
{
    match s {
        Some(t) => Some(String::from_str(t)),
        None => None,
    }
}

/// Chooses the engine's classifier: Anthropic where its key is set, else
/// OpenAI where its key is set, unless the mock switch is on; the mock
/// otherwise.
pub fn classifier_setup(mock: bool, anthropic_key: Option<&str>, openai_key: Option<&str>, model: Option<
    &str,
>) -> (r: ClassifierSetup)
    ensures
        match anthropic_key {
            Some(k) => if mock {
                r is Mock
            } else {
                r matches ClassifierSetup::Anthropic { key, model: m } && key@ == k@
                    && crate::host::tools::opt_view(m) == (match model {
                    Some(x) => Some(x@),
                    None => None,
                })
            },
            None => match openai_key {
                Some(k) => if mock {
                    r is Mock
                } else {
                    r matches ClassifierSetup::OpenAi { key, model: m } && key@ == k@ && m@ == model_or(
                        match model {
                            Some(x) => Some(x@),
                            None => None,
                        },
                        "gpt-4o"@,
                    )
                },
                None => r is Mock,
            },
        },
{
    match anthropic_key {
        Some(k) => {
            if mock {
                ClassifierSetup::Mock
            } else {
                ClassifierSetup::Anthropic {
                    key: String::from_str(k),
                    model: copy_opt(model),
                }
            }
        },
        None => match openai_key {
            Some(k) => {
                if mock {
                    ClassifierSetup::Mock
                } else {
                    ClassifierSetup::OpenAi {
                        key: String::from_str(k),
                        model: match model {
                            Some(m) => String::from_str(m),
                            None => String::from_str("gpt-4o"),
                        },
                    }
                }
            },
            None => ClassifierSetup::Mock,
        },
    }
}

/// Chooses the engine's parameter extractor: the mock where the switch is on
/// or no key is set; otherwise a model, Anthropic's where its key is set.
pub fn extractor_setup(mock: bool, anthropic_key: Option<&str>, openai_key: Option<&str>, model: Option<
    &str,
>) -> (r: ExtractorSetup)
    ensures
        mock || (anthropic_key is None && openai_key is None) ==> r is Mock,
        !mock && (anthropic_key is Some || openai_key is Some) ==> (r matches ExtractorSetup::Llm {
            key,
            api_url,
            model: m,
            anthropic,
        } && anthropic == anthropic_key is Some && key@ == (match anthropic_key {
            Some(k) => k@,
            None => openai_key->0@,
        }) && api_url@ == (if anthropic_key is Some {
            "https://api.anthropic.com/v1/messages"@
        } else {
            "https://api.openai.com/v1/chat/completions"@
        }) && crate::host::tools::opt_view(m) == (match model {
            Some(x) => Some(x@),
            None => None,
        })),
{
    if mock || (anthropic_key.is_none() && openai_key.is_none()) {
        return ExtractorSetup::Mock;
    }
    let (key, api_url, anthropic) = match anthropic_key {
        Some(k) => (String::from_str(k), String::from_str("https://api.anthropic.com/v1/messages"), true),
        None => match openai_key {
            Some(k) => (
                String::from_str(k),
                String::from_str("https://api.openai.com/v1/chat/completions"),
                false,
            ),
            None => {
                proof {
                    assert(false);
                }
                (String::new(), String::new(), false)
            },
        },
    };
    let model = copy_opt(model);
    ExtractorSetup::Llm { key, api_url, model, anthropic }
}

// ── Scored evaluation backends ──────────────────────────────────────────

/// How a scoring backend is reached.
#[derive(Debug)]
pub enum BackendKind {
    /// A script in the project, by its path relative to the project root.
    Local { script_path: String },
    /// An HTTP endpoint.
    Http { url: String },
    /// An MCP server.
    Mcp { url: String },
}

/// A scoring backend named in the configuration.
#[derive(Debug)]
pub struct BackendSetup {
    pub name: String,
    pub kind: BackendKind,
    pub timeout_ms: u64,
}

/// The backend one configuration entry declares, if it declares a usable
/// one: `local` with a script path, `http` or `mcp` with a URL; the
/// timeout is 30 seconds where none is given.
pub open spec fn backend_of(name: Seq<char>, conf: JsonV) -> Option<(Seq<char>, u8, Seq<char>, u64)> {
    let t = match conf.str_at("type"@) {
        Some(t) => t,
        None => Seq::empty(),
    };
    let timeout = match conf.get("timeout_ms"@) {
        Some(v) => match v.as_u64() {
            Some(n) => n,
            None => 30000,
        },
        None => 30000,
    };
    if t == "local"@ {
        match conf.str_at("script_path"@) {
            Some(p) => Some((name, 0u8, p, timeout)),
            None => None,
        }
    } else if t == "http"@ {
        match conf.str_at("url"@) {
            Some(u) => Some((name, 1u8, u, timeout)),
            None => None,
        }
    } else if t == "mcp"@ {
        match conf.str_at("url"@) {
            Some(u) => Some((name, 2u8, u, timeout)),
            None => None,
        }
    } else {
        None
    }
}

/// The backends of a list of configuration entries, in order.
pub open spec fn backends_of(entries: Seq<(Seq<char>, JsonV)>) -> Seq<(Seq<char>, u8, Seq<char>, u64)>
    decreases entries.len(),
{
    if entries.len() == 0 {
        Seq::empty()
    } else {
        backends_of(entries.drop_last()) + match backend_of(entries.last().0, entries.last().1) {
            Some(b) => seq![b],
            None => Seq::empty(),
        }
    }
}

/// The value of a backend setup.
pub open spec fn backend_view(b: BackendSetup) -> (Seq<char>, u8, Seq<char>, u64) {
    match b.kind {
        BackendKind::Local { script_path } => (b.name@, 0u8, script_path@, b.timeout_ms),
        BackendKind::Http { url } => (b.name@, 1u8, url@, b.timeout_ms),
        BackendKind::Mcp { url } => (b.name@, 2u8, url@, b.timeout_ms),
    }
}

/// The entries of the configuration's `scored_evaluation.backends` table.
pub open spec fn backend_entries(config: JsonV) -> Seq<(Seq<char>, JsonV)> {
    match config.get("scored_evaluation"@) {
        Some(s) => match s.get("backends"@) {
            Some(JsonV::Object(es)) => es,
            _ => Seq::empty(),
        },
        None => Seq::empty(),
    }
}

fn backend_from(name: &String, conf: &Json) -> (r: Option<BackendSetup>)
    ensures
        match r {
            Some(b) => backend_of(name@, conf@) == Some(backend_view(b)),
            None => backend_of(name@, conf@) is None,
        },
{
    let t: &str = match conf.str_at("type") {
        Some(t) => t,
        None => "",
    };
    proof {
        reveal_strlit("");
        assert(""@ =~= Seq::<char>::empty());
    }
    let timeout_ms = match conf.get("timeout_ms") {
        Some(v) => match v.as_u64() {
            Some(n) => n,
            None => 30000,
        },
        None => 30000,
    };
    if str_eq(t, "local") {
        match conf.str_at("script_path") {
            Some(p) => Some(
                BackendSetup {
                    name: name.clone(),
                    kind: BackendKind::Local { script_path: String::from_str(p) },
                    timeout_ms,
                },
            ),
            None => None,
        }
    } else if str_eq(t, "http") {
        match conf.str_at("url") {
            Some(u) => Some(
                BackendSetup { name: name.clone(), kind: BackendKind::Http { url: String::from_str(u) }, timeout_ms },
            ),
            None => None,
        }
    } else if str_eq(t, "mcp") {
        match conf.str_at("url") {
            Some(u) => Some(
                BackendSetup { name: name.clone(), kind: BackendKind::Mcp { url: String::from_str(u) }, timeout_ms },
            ),
            None => None,
        }
    } else {
        None
    }
}

/// The scoring backends a configuration declares, in the order of its
/// `scored_evaluation.backends` table; unusable entries are skipped.
pub fn scored_backends(config: &Json) -> (r: Vec<BackendSetup>)
    ensures
        r@.map_values(|b: BackendSetup| backend_view(b)) == backends_of(backend_entries(config@)),
{
    let mut out: Vec<BackendSetup> = Vec::new();
    let entries: &Vec<(String, Json)> = match config.get("scored_evaluation") {
        Some(s) => match s.get("backends") {
            Some(b) => match b {
                Json::Object(es) => es,
                _ => {
                    proof {
                        assert(out@.map_values(|b: BackendSetup| backend_view(b)) =~= Seq::<
                            (Seq<char>, u8, Seq<char>, u64),
                        >::empty());
                    }
                    return out;
                },
            },
            None => {
                proof {
                    assert(out@.map_values(|b: BackendSetup| backend_view(b)) =~= Seq::<
                        (Seq<char>, u8, Seq<char>, u64),
                    >::empty());
                }
                return out;
            },
        },
        None => {
            proof {
                assert(out@.map_values(|b: BackendSetup| backend_view(b)) =~= Seq::<
                    (Seq<char>, u8, Seq<char>, u64),
                >::empty());
            }
            return out;
        },
    };
    let ghost ev = crate::json::entries_view(entries@);
    proof {
        crate::json::lemma_entries_view(entries@);
    }
    assert(ev == backend_entries(config@));
    let mut i: usize = 0;
    while i < entries.len()
        invariant
            ev == crate::json::entries_view(entries@),
            ev.len() == entries@.len(),
            forall|k: int|
                0 <= k < entries@.len() ==> #[trigger] ev[k] == (entries@[k].0@, entries@[k].1@),
            i <= entries.len(),
            out@.map_values(|b: BackendSetup| backend_view(b)) == backends_of(ev.subrange(0, i as int)),
        decreases entries.len() - i,
    {
        assert(ev.subrange(0, i + 1).drop_last() =~= ev.subrange(0, i as int));
        assert(ev.subrange(0, i + 1).last() == ev[i as int]);
        let ghost before = out@.map_values(|b: BackendSetup| backend_view(b));
        match backend_from(&entries[i].0, &entries[i].1) {
            Some(b) => {
                out.push(b);
                assert(out@.map_values(|b: BackendSetup| backend_view(b)) =~= before.push(
                    backend_view(out@[out@.len() - 1]),
                ));
            },
            None => {},
        }
        assert(out@.map_values(|b: BackendSetup| backend_view(b)) =~= backends_of(
            ev.subrange(0, i + 1),
        ));
        i = i + 1;
    }
    assert(ev.subrange(0, ev.len() as int) =~= ev);
    out
}

// ── Identity provider and enterprise proxy ──────────────────────────────

/// Where the identity tokens are kept.
#[derive(Debug)]
pub enum KeychainSetup {
    /// The operating system's keychain.
    Os,
    /// Plain files in the given directory (explicit opt-in).
    Plaintext { dir: String },
}

/// The identity provider's settings.
#[derive(Debug)]
pub struct AuthSetup {
    pub issuer: String,
    pub client_id: String,
    pub client_secret: Option<String>,
    pub access_token_ttl_secs: Option<u64>,
    pub keychain: KeychainSetup,
}

/// The identity provider's settings from the environment: enabled only with
/// an issuer and a client id that are not blank; the token lifetime where it
/// is a number; plain-file storage only where a non-blank directory is
/// named.
pub fn auth_setup(
    issuer: Option<&str>,
    client_id: Option<&str>,
    client_secret: Option<&str>,
    ttl_text: Option<&str>,
    plaintext_dir: Option<&str>,
) -> (r: Option<AuthSetup>)
    ensures
        issuer is None || client_id is None ==> r is None,
        issuer is Some && client_id is Some ==> (trimmed(issuer->0@).len() == 0 || trimmed(
            client_id->0@,
        ).len() == 0 <==> r is None),
        match r {
            Some(a) => {
                &&& a.issuer@ == issuer->0@
                &&& a.client_id@ == client_id->0@
                &&& crate::host::tools::opt_view(a.client_secret) == (match client_secret {
                    Some(s) => Some(s@),
                    None => None,
                })
                &&& a.access_token_ttl_secs == (match ttl_text {
                    Some(t) => u64_of(t@),
                    None => None,
                })
                &&& match plaintext_dir {
                    Some(d) => if trimmed(d@).len() > 0 {
                        a.keychain matches KeychainSetup::Plaintext { dir } && dir@ == d@
                    } else {
                        a.keychain is Os
                    },
                    None => a.keychain is Os,
                }
            },
            None => true,
        },
{
    let issuer = match issuer {
        Some(i) => i,
        None => {
            return None;
        },
    };
    let client_id = match client_id {
        Some(c) => c,
        None => {
            return None;
        },
    };
    let ic = chars_of(issuer);
    let cc = chars_of(client_id);
    if trim_chars(&ic).len() == 0 || trim_chars(&cc).len() == 0 {
        return None;
    }
    let ttl = match ttl_text {
        Some(t) => parse_u64(t),
        None => None,
    };
    let keychain = match plaintext_dir {
        Some(d) => {
            let dc = chars_of(d);
            if trim_chars(&dc).len() > 0 {
                KeychainSetup::Plaintext { dir: String::from_str(d) }
            } else {
                KeychainSetup::Os
            }
        },
        None => KeychainSetup::Os,
    };
    Some(
        AuthSetup {
            issuer: String::from_str(issuer),
            client_id: String::from_str(client_id),
            client_secret: copy_opt(client_secret),
            access_token_ttl_secs: ttl,
            keychain,
        },
    )
}

/// The enterprise proxy's settings.
#[derive(Debug)]
pub struct ProxySetup {
    pub api_url: String,
    pub api_key: String,
    pub timeout_secs: Option<u64>,
    pub tls_verify: Option<bool>,
    pub schema_ttl_secs: Option<u64>,
}

/// Whether a TLS switch text leaves verification on: anything but "false",
/// "0" and "no".
pub open spec fn tls_on(v: Seq<char>) -> bool {
    !(v == "false"@ || v == "0"@ || v == "no"@)
}

/// The enterprise proxy's settings from the environment: enabled only with
/// both a URL and a key; numbers where they are numbers.
pub fn proxy_setup(
    api_url: Option<&str>,
    api_key: Option<&str>,
    timeout_text: Option<&str>,
    tls_text: Option<&str>,
    schema_ttl_text: Option<&str>,
) -> (r: Option<ProxySetup>)
    ensures
        api_url is None || api_key is None <==> r is None,
        match r {
            Some(p) => {
                &&& p.api_url@ == api_url->0@
                &&& p.api_key@ == api_key->0@
                &&& p.timeout_secs == (match timeout_text {
                    Some(t) => u64_of(t@),
                    None => None,
                })
                &&& p.tls_verify == (match tls_text {
                    Some(t) => Some(tls_on(t@)),
                    None => None,
                })
                &&& p.schema_ttl_secs == (match schema_ttl_text {
                    Some(t) => u64_of(t@),
                    None => None,
                })
            },
            None => true,
        },
{
    let api_url = match api_url {
        Some(u) => u,
        None => {
            return None;
        },
    };
    let api_key = match api_key {
        Some(k) => k,
        None => {
            return None;
        },
    };
    let timeout_secs = match timeout_text {
        Some(t) => parse_u64(t),
        None => None,
    };
    let tls_verify = match tls_text {
        Some(t) => Some(!(str_eq(t, "false") || str_eq(t, "0") || str_eq(t, "no"))),
        None => None,
    };
    let schema_ttl_secs = match schema_ttl_text {
        Some(t) => parse_u64(t),
        None => None,
    };
    Some(
        ProxySetup {
            api_url: String::from_str(api_url),
            api_key: String::from_str(api_key),
            timeout_secs,
            tls_verify,
            schema_ttl_secs,
        },
    )
}

// ── Served tool schemas ─────────────────────────────────────────────────

/// The schema a tool descriptor declares: its name (required), description
/// (empty where absent) and input schema (`null` where absent).
pub open spec fn descriptor_schema(d: JsonV) -> Option<ToolSchemaV> {
    match d.str_at("name"@) {
        Some(n) => Some(
            ToolSchemaV {
                name: n,
                description: match d.str_at("description"@) {
                    Some(s) => s,
                    None => Seq::empty(),
                },
                input_schema: match d.get("inputSchema"@) {
                    Some(s) => s,
                    None => JsonV::Null,
                },
            },
        ),
        None => None,
    }
}

/// The schemas of a list of descriptors, skipping those without a name.
pub open spec fn descriptor_schemas(ds: Seq<JsonV>) -> Seq<ToolSchemaV>
    decreases ds.len(),
{
    if ds.len() == 0 {
        Seq::empty()
    } else {
        descriptor_schemas(ds.drop_last()) + match descriptor_schema(ds.last()) {
            Some(s) => seq![s],
            None => Seq::empty(),
        }
    }
}

/// The tool schemas the served descriptors declare, in order.
pub fn schemas_from_descriptors(descriptors: &Vec<Json>) -> (r: Vec<ToolSchema>)
    ensures
        r@.map_values(|t: ToolSchema| t@) == descriptor_schemas(crate::json::array_view(descriptors@)),
{
    let ghost dv = crate::json::array_view(descriptors@);
    proof {
        crate::json::lemma_array_view(descriptors@);
    }
    let mut out: Vec<ToolSchema> = Vec::new();
    let mut i: usize = 0;
    while i < descriptors.len()
        invariant
            dv == crate::json::array_view(descriptors@),
            dv.len() == descriptors@.len(),
            forall|k: int| 0 <= k < descriptors@.len() ==> #[trigger] dv[k] == descriptors@[k]@,
            i <= descriptors.len(),
            out@.map_values(|t: ToolSchema| t@) == descriptor_schemas(dv.subrange(0, i as int)),
        decreases descriptors.len() - i,
    {
        assert(dv.subrange(0, i + 1).drop_last() =~= dv.subrange(0, i as int));
        assert(dv.subrange(0, i + 1).last() == dv[i as int]);
        let ghost before = out@.map_values(|t: ToolSchema| t@);
        let d = &descriptors[i];
        match d.str_at("name") {
            Some(n) => {
                let description: &str = match d.str_at("description") {
                    Some(s) => s,
                    None => "",
                };
                proof {
                    reveal_strlit("");
                    assert(""@ =~= Seq::<char>::empty());
                }
                let input_schema = match d.get("inputSchema") {
                    Some(s) => s.duplicate(),
                    None => Json::Null,
                };
                out.push(ToolSchema::new(n, description, input_schema));
                assert(out@.map_values(|t: ToolSchema| t@) =~= before.push(out@[out@.len() - 1]@));
            },
            None => {},
        }
        assert(out@.map_values(|t: ToolSchema| t@) =~= descriptor_schemas(dv.subrange(0, i + 1)));
        i = i + 1;
    }
    assert(dv.subrange(0, dv.len() as int) =~= dv);
    out
}

} // verus!
