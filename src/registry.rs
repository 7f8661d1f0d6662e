//! The fixed catalog of known models and case-insensitive lookup in it.
use vstd::prelude::*;

verus! {

/// A known model: its canonical identifier and its short aliases.
#[derive(Debug)]
pub struct Model {
    pub name: String,
    pub aliases: Vec<String>,
}

/// A model as values: its canonical name and its aliases, in order.
pub type ModelView = (Seq<char>, Seq<Seq<char>>);

impl View for Model {
    type V = ModelView;

    open spec fn view(&self) -> ModelView {
        (self.name@, self.aliases@.map_values(|a: String| a@))
    }
}

/// Why a model identifier could not be resolved.
#[derive(Debug, Clone, Copy, PartialEq, Eq, Structural)]
pub enum LookupError {
    ModelNotFound,
}

/// What `str::to_lowercase` returns for a string.
pub uninterp spec fn lower_of(s: Seq<char>) -> Seq<char>;

/// A character that lower-casing leaves as it is: ASCII, and not an
/// upper-case letter.
pub open spec fn kept_by_lowering(c: char) -> bool {
    (c as u32) < 0x80 && !(0x41 <= (c as u32) && (c as u32) <= 0x5a)
}

/// Every character of `s` is kept by lower-casing.
pub open spec fn already_lower(s: Seq<char>) -> bool {
    forall|k: int| 0 <= k < s.len() ==> kept_by_lowering(#[trigger] s[k])
}

/// Relies on `str::to_lowercase`: its result depends on the characters
/// alone; it leaves a string of ASCII characters without upper-case letters
/// as it is, and the result is empty exactly when the input is.
#[verifier::external_body]
fn lowercase(s: &str) -> (r: String)
    ensures
        r@ == lower_of(s@),
        already_lower(s@) ==> r@ == s@,
        s@.len() == 0 <==> r@.len() == 0,
{
    s.to_lowercase()
}

/// The catalog, in declaration order.
pub open spec fn catalog_spec() -> Seq<ModelView> {
    seq![
        ("@cf/meta/llama-3-8b-instruct"@, seq!["llama-3-8b"@, "llama-3-8b-instruct"@]),
        ("@cf/meta/llama-2-7b-chat-fp16"@, seq!["llama-2-7b"@]),
        ("@cf/meta/llama-2-7b-chat-int8"@, seq!["llama-2-7b-int8"@]),
        ("@cf/mistral/mistral-7b-instruct-v0.1"@, seq!["mistral-7b"@]),
        ("@hf/thebloke/deepseek-coder-6.7b-base-awq"@, seq!["deepseek-coder-6.7b"@]),
        ("@hf/thebloke/deepseek-coder-6.7b-instruct-awq"@, seq!["deepseek-coder-6.7b-instruct"@]),
        ("@cf/deepseek-ai/deepseek-math-7b-base"@, seq!["deepseek-math-7b"@]),
        ("@cf/deepseek-ai/deepseek-math-7b-instruct"@, seq!["deepseek-math-7b-instruct"@]),
        ("@cf/thebloke/discolm-german-7b-v1-awq"@, seq!["discolm-german-7b-v1-awq"@]),
        ("@cf/tiiuae/falcon-7b-instruct"@, seq!["falcon-7b"@]),
        ("@cf/google/gemma-2b-it-lora"@, seq!["gemma-2b"@]),
        ("@cf/google/gemma-7b-it"@, seq!["gemma-7b"@]),
        ("@cf/google/gemma-7b-it-lora"@, seq!["gemma-7b-lora"@]),
        ("@hf/nousresearch/hermes-2-pro-mistral-7b"@, seq!["hermes-2-pro-mistral-7b"@]),
        ("@hf/thebloke/llama-2-13b-chat-awq"@, seq!["llama-2-13b-chat-awq"@]),
        ("@cf/meta-llama/llama-2-7b-chat-hf-lora"@, seq!["llama-2-7b-chat-hf-lora"@]),
        ("@cf/meta/llama-3-8b-instruct-awq"@, seq!["llama-3-8b-instruct-awq"@]),
        ("@hf/thebloke/llamaguard-7b-awq"@, seq!["llamaguard-7b-awq"@]),
        ("@hf/thebloke/mistral-7b-instruct-v0.1-awq"@, seq!["mistral-7b-instruct-v0.1-awq"@]),
        ("@hf/mistral/mistral-7b-instruct-v0.2"@, seq!["mistral-7b-instruct-v0.2"@]),
        ("@cf/mistral/mistral-7b-instruct-v0.2-lora"@, seq!["mistral-7b-instruct-v0.2-lora"@]),
        ("@hf/thebloke/neural-chat-7b-v3-1-awq"@, seq!["neural-chat-7b-v3-1-awq"@]),
        ("@cf/openchat/openchat-3.5-0106"@, seq!["openchat-3.5-0106"@]),
        ("@hf/thebloke/openhermes-2.5-mistral-7b-awq"@, seq!["openhermes-2.5-mistral-7b-awq"@]),
        ("@cf/microsoft/phi-2"@, seq!["phi-2"@]),
        ("@cf/qwen/qwen1.5-0.5b-chat"@, seq!["qwen1.5-0.5b-chat"@]),
        ("@cf/qwen/qwen1.5-1.8b-chat"@, seq!["qwen1.5-1.8b-chat"@]),
        ("@cf/qwen/qwen1.5-14b-chat-awq"@, seq!["qwen1.5-14b-chat-awq"@]),
        ("@cf/qwen/qwen1.5-7b-chat-awq"@, seq!["qwen1.5-7b-chat-awq"@]),
        ("@cf/defog/sqlcoder-7b-2"@, seq!["sqlcoder-7b-2"@]),
        ("@hf/nexusflow/starling-lm-7b-beta"@, seq!["starling-lm-7b-beta"@]),
        ("@cf/tinyllama/tinyllama-1.1b-chat-v1.0"@, seq!["tinyllama-1.1b-chat-v1.0"@]),
        ("@cf/fblgit/una-cybertron-7b-v2-bf16"@, seq!["una-cybertron-7b-v2-bf16"@]),
        ("@hf/thebloke/zephyr-7b-beta-awq"@, seq!["zephyr-7b-beta-awq"@])
    ]
}

/// An entry answers to `key` (a lower-cased identifier) when its name or
/// one of its aliases equals it. The catalog's texts are already lower
/// case, so this is a comparison of both sides lower-cased.
pub open spec fn entry_matches(e: ModelView, key: Seq<char>) -> bool {
    e.0 == key || exists|j: int| 0 <= j < e.1.len() && #[trigger] e.1[j] == key
}

/// The first index at or after `i` whose entry answers to `key`.
pub open spec fn find_from(cat: Seq<ModelView>, key: Seq<char>, i: nat) -> Option<int>
    decreases cat.len() - i,
{
    if i >= cat.len() {
        None
    } else if entry_matches(cat[i as int], key) {
        Some(i as int)
    } else {
        find_from(cat, key, i + 1)
    }
}

/// The model that an identifier designates: the first catalog entry when
/// the identifier is absent or empty (lower-casing keeps a text empty
/// exactly when it is), else the first entry answering to its lower-cased
/// form, if any.
pub open spec fn resolved(identifier: Option<Seq<char>>) -> Option<ModelView> {
    match identifier {
        None => Some(catalog_spec()[0]),
        Some(s) => if lower_of(s).len() == 0 {
            Some(catalog_spec()[0])
        } else {
            match find_from(catalog_spec(), lower_of(s), 0) {
                Some(i) => Some(catalog_spec()[i]),
                None => None,
            }
        },
    }
}

/// The characters of an optional string slice.
pub open spec fn opt_chars(o: Option<&str>) -> Option<Seq<char>> {
    match o {
        Some(s) => Some(s@),
        None => None,
    }
}

fn entry(name: &str, alias: &str) -> (m: Model)
    ensures
        m@ == (name@, seq![alias@]),
{
    let mut aliases: Vec<String> = Vec::new();
    aliases.push(String::from_str(alias));
    let m = Model { name: String::from_str(name), aliases };
    assert(m@.1 =~= seq![alias@]);
    m
}

fn entry2(name: &str, alias: &str, other: &str) -> (m: Model)
    ensures
        m@ == (name@, seq![alias@, other@]),
{
    let mut aliases: Vec<String> = Vec::new();
    aliases.push(String::from_str(alias));
    aliases.push(String::from_str(other));
    let m = Model { name: String::from_str(name), aliases };
    assert(m@.1 =~= seq![alias@, other@]);
    m
}

/// No two catalog entries share a canonical name.
/// Enough of a text to tell the catalog's names and aliases apart: its
/// length, its first character and a few characters near either end.
spec fn text_tag(s: Seq<char>) -> (int, char, char, char, char, char, char, char, char, char) {
    let n = s.len() as int;
    (n, s[0], s[n - 1], s[n - 2], s[n - 3], s[n - 4], s[n - 5], s[n - 7], s[n - 10], s[8])
}

/// Facts about the catalog's texts: none is empty or changed by
/// lower-casing, no two entries share a canonical name, no name is an
/// alias, and no alias belongs to two entries.
pub proof fn lemma_catalog_texts()
    ensures
        forall|i: int|
            0 <= i < catalog_spec().len() ==> {
                &&& already_lower(#[trigger] catalog_spec()[i].0)
                &&& catalog_spec()[i].0.len() > 0
                &&& forall|k: int|
                    0 <= k < catalog_spec()[i].1.len() ==> already_lower(
                        #[trigger] catalog_spec()[i].1[k],
                    ) && catalog_spec()[i].1[k].len() > 0
            },
        forall|i: int, j: int|
            0 <= i < j < catalog_spec().len() ==> catalog_spec()[i].0 != catalog_spec()[j].0,
        forall|i: int, j: int, k: int|
            0 <= i < catalog_spec().len() && 0 <= j < catalog_spec().len() && 0 <= k
                < catalog_spec()[j].1.len() ==> #[trigger] catalog_spec()[i].0 != #[trigger] catalog_spec()[j].1[k],
        forall|i: int, j: int, k: int, l: int|
            0 <= i < catalog_spec().len() && 0 <= j < catalog_spec().len() && i != j && 0 <= k
                < catalog_spec()[i].1.len() && 0 <= l < catalog_spec()[j].1.len()
                ==> #[trigger] catalog_spec()[i].1[k] != #[trigger] catalog_spec()[j].1[l],
{
    reveal_strlit("@cf/meta/llama-3-8b-instruct");
    reveal_strlit("llama-3-8b");
    reveal_strlit("llama-3-8b-instruct");
    reveal_strlit("@cf/meta/llama-2-7b-chat-fp16");
    reveal_strlit("llama-2-7b");
    reveal_strlit("@cf/meta/llama-2-7b-chat-int8");
    reveal_strlit("llama-2-7b-int8");
    reveal_strlit("@cf/mistral/mistral-7b-instruct-v0.1");
    reveal_strlit("mistral-7b");
    reveal_strlit("@hf/thebloke/deepseek-coder-6.7b-base-awq");
    reveal_strlit("deepseek-coder-6.7b");
    reveal_strlit("@hf/thebloke/deepseek-coder-6.7b-instruct-awq");
    reveal_strlit("deepseek-coder-6.7b-instruct");
    reveal_strlit("@cf/deepseek-ai/deepseek-math-7b-base");
    reveal_strlit("deepseek-math-7b");
    reveal_strlit("@cf/deepseek-ai/deepseek-math-7b-instruct");
    reveal_strlit("deepseek-math-7b-instruct");
    reveal_strlit("@cf/thebloke/discolm-german-7b-v1-awq");
    reveal_strlit("discolm-german-7b-v1-awq");
    reveal_strlit("@cf/tiiuae/falcon-7b-instruct");
    reveal_strlit("falcon-7b");
    reveal_strlit("@cf/google/gemma-2b-it-lora");
    reveal_strlit("gemma-2b");
    reveal_strlit("@cf/google/gemma-7b-it");
    reveal_strlit("gemma-7b");
    reveal_strlit("@cf/google/gemma-7b-it-lora");
    reveal_strlit("gemma-7b-lora");
    reveal_strlit("@hf/nousresearch/hermes-2-pro-mistral-7b");
    reveal_strlit("hermes-2-pro-mistral-7b");
    reveal_strlit("@hf/thebloke/llama-2-13b-chat-awq");
    reveal_strlit("llama-2-13b-chat-awq");
    reveal_strlit("@cf/meta-llama/llama-2-7b-chat-hf-lora");
    reveal_strlit("llama-2-7b-chat-hf-lora");
    reveal_strlit("@cf/meta/llama-3-8b-instruct-awq");
    reveal_strlit("llama-3-8b-instruct-awq");
    reveal_strlit("@hf/thebloke/llamaguard-7b-awq");
    reveal_strlit("llamaguard-7b-awq");
    reveal_strlit("@hf/thebloke/mistral-7b-instruct-v0.1-awq");
    reveal_strlit("mistral-7b-instruct-v0.1-awq");
    reveal_strlit("@hf/mistral/mistral-7b-instruct-v0.2");
    reveal_strlit("mistral-7b-instruct-v0.2");
    reveal_strlit("@cf/mistral/mistral-7b-instruct-v0.2-lora");
    reveal_strlit("mistral-7b-instruct-v0.2-lora");
    reveal_strlit("@hf/thebloke/neural-chat-7b-v3-1-awq");
    reveal_strlit("neural-chat-7b-v3-1-awq");
    reveal_strlit("@cf/openchat/openchat-3.5-0106");
    reveal_strlit("openchat-3.5-0106");
    reveal_strlit("@hf/thebloke/openhermes-2.5-mistral-7b-awq");
    reveal_strlit("openhermes-2.5-mistral-7b-awq");
    reveal_strlit("@cf/microsoft/phi-2");
    reveal_strlit("phi-2");
    reveal_strlit("@cf/qwen/qwen1.5-0.5b-chat");
    reveal_strlit("qwen1.5-0.5b-chat");
    reveal_strlit("@cf/qwen/qwen1.5-1.8b-chat");
    reveal_strlit("qwen1.5-1.8b-chat");
    reveal_strlit("@cf/qwen/qwen1.5-14b-chat-awq");
    reveal_strlit("qwen1.5-14b-chat-awq");
    reveal_strlit("@cf/qwen/qwen1.5-7b-chat-awq");
    reveal_strlit("qwen1.5-7b-chat-awq");
    reveal_strlit("@cf/defog/sqlcoder-7b-2");
    reveal_strlit("sqlcoder-7b-2");
    reveal_strlit("@hf/nexusflow/starling-lm-7b-beta");
    reveal_strlit("starling-lm-7b-beta");
    reveal_strlit("@cf/tinyllama/tinyllama-1.1b-chat-v1.0");
    reveal_strlit("tinyllama-1.1b-chat-v1.0");
    reveal_strlit("@cf/fblgit/una-cybertron-7b-v2-bf16");
    reveal_strlit("una-cybertron-7b-v2-bf16");
    reveal_strlit("@hf/thebloke/zephyr-7b-beta-awq");
    reveal_strlit("zephyr-7b-beta-awq");
    assert forall|i: int, j: int| 0 <= i < j < catalog_spec().len() implies text_tag(
        catalog_spec()[i].0,
    ) != text_tag(catalog_spec()[j].0) by {}
    assert forall|i: int, j: int, k: int|
        0 <= i < catalog_spec().len() && 0 <= j < catalog_spec().len() && 0 <= k
            < catalog_spec()[j].1.len() implies text_tag(catalog_spec()[i].0) != text_tag(
        catalog_spec()[j].1[k],
    ) by {}
    assert forall|i: int, j: int, k: int, l: int|
        0 <= i < catalog_spec().len() && 0 <= j < catalog_spec().len() && i != j && 0 <= k
            < catalog_spec()[i].1.len() && 0 <= l < catalog_spec()[j].1.len() implies text_tag(
        catalog_spec()[i].1[k],
    ) != text_tag(catalog_spec()[j].1[l]) by {}
}

/// Builds the catalog of known models, in declaration order.
pub fn catalog() -> (v: Vec<Model>)
    ensures
        v@.len() == catalog_spec().len(),
        forall|i: int| 0 <= i < v@.len() ==> #[trigger] v@[i]@ == catalog_spec()[i],
        forall|i: int, j: int| 0 <= i < j < v@.len() ==> v@[i]@.0 != v@[j]@.0,
{
    proof {
        lemma_catalog_texts();
    }
    let mut v: Vec<Model> = Vec::new();
    v.push(entry2("@cf/meta/llama-3-8b-instruct", "llama-3-8b", "llama-3-8b-instruct"));
    v.push(entry("@cf/meta/llama-2-7b-chat-fp16", "llama-2-7b"));
    v.push(entry("@cf/meta/llama-2-7b-chat-int8", "llama-2-7b-int8"));
    v.push(entry("@cf/mistral/mistral-7b-instruct-v0.1", "mistral-7b"));
    v.push(entry("@hf/thebloke/deepseek-coder-6.7b-base-awq", "deepseek-coder-6.7b"));
    v.push(entry("@hf/thebloke/deepseek-coder-6.7b-instruct-awq", "deepseek-coder-6.7b-instruct"));
    v.push(entry("@cf/deepseek-ai/deepseek-math-7b-base", "deepseek-math-7b"));
    v.push(entry("@cf/deepseek-ai/deepseek-math-7b-instruct", "deepseek-math-7b-instruct"));
    v.push(entry("@cf/thebloke/discolm-german-7b-v1-awq", "discolm-german-7b-v1-awq"));
    v.push(entry("@cf/tiiuae/falcon-7b-instruct", "falcon-7b"));
    v.push(entry("@cf/google/gemma-2b-it-lora", "gemma-2b"));
    v.push(entry("@cf/google/gemma-7b-it", "gemma-7b"));
    v.push(entry("@cf/google/gemma-7b-it-lora", "gemma-7b-lora"));
    v.push(entry("@hf/nousresearch/hermes-2-pro-mistral-7b", "hermes-2-pro-mistral-7b"));
    v.push(entry("@hf/thebloke/llama-2-13b-chat-awq", "llama-2-13b-chat-awq"));
    v.push(entry("@cf/meta-llama/llama-2-7b-chat-hf-lora", "llama-2-7b-chat-hf-lora"));
    v.push(entry("@cf/meta/llama-3-8b-instruct-awq", "llama-3-8b-instruct-awq"));
    v.push(entry("@hf/thebloke/llamaguard-7b-awq", "llamaguard-7b-awq"));
    v.push(entry("@hf/thebloke/mistral-7b-instruct-v0.1-awq", "mistral-7b-instruct-v0.1-awq"));
    v.push(entry("@hf/mistral/mistral-7b-instruct-v0.2", "mistral-7b-instruct-v0.2"));
    v.push(entry("@cf/mistral/mistral-7b-instruct-v0.2-lora", "mistral-7b-instruct-v0.2-lora"));
    v.push(entry("@hf/thebloke/neural-chat-7b-v3-1-awq", "neural-chat-7b-v3-1-awq"));
    v.push(entry("@cf/openchat/openchat-3.5-0106", "openchat-3.5-0106"));
    v.push(entry("@hf/thebloke/openhermes-2.5-mistral-7b-awq", "openhermes-2.5-mistral-7b-awq"));
    v.push(entry("@cf/microsoft/phi-2", "phi-2"));
    v.push(entry("@cf/qwen/qwen1.5-0.5b-chat", "qwen1.5-0.5b-chat"));
    v.push(entry("@cf/qwen/qwen1.5-1.8b-chat", "qwen1.5-1.8b-chat"));
    v.push(entry("@cf/qwen/qwen1.5-14b-chat-awq", "qwen1.5-14b-chat-awq"));
    v.push(entry("@cf/qwen/qwen1.5-7b-chat-awq", "qwen1.5-7b-chat-awq"));
    v.push(entry("@cf/defog/sqlcoder-7b-2", "sqlcoder-7b-2"));
    v.push(entry("@hf/nexusflow/starling-lm-7b-beta", "starling-lm-7b-beta"));
    v.push(entry("@cf/tinyllama/tinyllama-1.1b-chat-v1.0", "tinyllama-1.1b-chat-v1.0"));
    v.push(entry("@cf/fblgit/una-cybertron-7b-v2-bf16", "una-cybertron-7b-v2-bf16"));
    v.push(entry("@hf/thebloke/zephyr-7b-beta-awq", "zephyr-7b-beta-awq"));
    v
}

fn entry_answers(m: &Model, key: &String) -> (r: bool)
    requires
        already_lower(m@.0),
        forall|k: int| 0 <= k < m@.1.len() ==> already_lower(#[trigger] m@.1[k]),
    ensures
        r == entry_matches(m@, key@),
{
    let name = lowercase(m.name.as_str());
    if name == *key {
        return true;
    }
    let mut j: usize = 0;
    while j < m.aliases.len()
        invariant
            0 <= j <= m.aliases@.len(),
            forall|k: int| 0 <= k < j ==> #[trigger] m@.1[k] != key@,
            forall|k: int| 0 <= k < m@.1.len() ==> already_lower(#[trigger] m@.1[k]),
            m@.0 != key@,
        decreases m.aliases@.len() - j,
    {
        let a = lowercase(m.aliases[j].as_str());
        assert(m@.1[j as int] == m.aliases@[j as int]@);
        if a == *key {
            return true;
        }
        j += 1;
    }
    false
}

/// Resolves a model identifier against the catalog, ignoring case. An
/// absent or empty identifier selects the first entry; otherwise the first
/// entry whose name or one of whose aliases equals it is returned, and
/// `ModelNotFound` when there is none.
pub fn resolve_model(identifier: Option<&str>) -> (r: Result<Model, LookupError>)
    ensures
        match resolved(opt_chars(identifier)) {
            Some(e) => r matches Ok(m) && m@ == e,
            None => r == Err::<Model, LookupError>(LookupError::ModelNotFound),
        },
        identifier matches Some(s) ==> (s@.len() == 0 ==> (r matches Ok(m) && m@
            == catalog_spec()[0])),
        identifier matches Some(s) ==> (already_lower(s@) ==> lower_of(s@) == s@),
{
    let mut cat = catalog();
    let s = match identifier {
        None => {
            return Ok(cat.remove(0));
        },
        Some(s) => s,
    };
    let key = lowercase(s);
    if key.as_str().is_empty() {
        return Ok(cat.remove(0));
    }
    let ghost spec_cat = catalog_spec();
    let mut i: usize = 0;
    while i < cat.len()
        invariant
            0 <= i <= cat@.len(),
            cat@.len() == spec_cat.len(),
            spec_cat == catalog_spec(),
            forall|k: int| 0 <= k < cat@.len() ==> #[trigger] cat@[k]@ == spec_cat[k],
            find_from(spec_cat, key@, 0) == find_from(spec_cat, key@, i as nat),
            identifier == Some(s),
            key@.len() != 0,
            key@ == lower_of(s@),
            already_lower(s@) ==> key@ == s@,
        decreases cat@.len() - i,
    {
        proof {
            lemma_catalog_texts();
        }
        if entry_answers(&cat[i], &key) {
            assert(find_from(spec_cat, key@, i as nat) == Some(i as int));
            assert(cat@[i as int]@ == spec_cat[i as int]);
            let m = cat.remove(i);
            return Ok(m);
        }
        i += 1;
    }
    Err(LookupError::ModelNotFound)
}

proof fn lemma_find_from(cat: Seq<ModelView>, key: Seq<char>, k: nat)
    requires
        k <= cat.len(),
    ensures
        find_from(cat, key, k) matches Some(i) ==> k <= i < cat.len() && entry_matches(cat[i], key)
            && forall|j: int| k <= j < i ==> !entry_matches(#[trigger] cat[j], key),
        find_from(cat, key, k) is None ==> forall|j: int|
            k <= j < cat.len() ==> !entry_matches(#[trigger] cat[j], key),
    decreases cat.len() - k,
{
    if k < cat.len() && !entry_matches(cat[k as int], key) {
        lemma_find_from(cat, key, k + 1);
    }
}

/// Lookup in the catalog: every entry is found under its canonical name
/// and under each of its aliases, written in any case (any identifier whose
/// lower-cased form is that name or alias); an absent identifier gives the
/// first entry; a non-empty identifier that no entry answers to gives
/// nothing, which `resolve_model` reports as `ModelNotFound`.
pub proof fn lemma_lookup(i: int, s: Seq<char>)
    requires
        0 <= i < catalog_spec().len(),
    ensures
        resolved(None) == Some(catalog_spec()[0]),
        lower_of(s) == catalog_spec()[i].0 ==> resolved(Some(s)) == Some(catalog_spec()[i]),
        forall|k: int|
            0 <= k < catalog_spec()[i].1.len() && lower_of(s) == #[trigger] catalog_spec()[i].1[k]
                ==> resolved(Some(s)) == Some(catalog_spec()[i]),
        lower_of(s).len() > 0 ==> (resolved(Some(s)) is None <==> forall|j: int|
            0 <= j < catalog_spec().len() ==> !entry_matches(#[trigger] catalog_spec()[j], lower_of(s))),
{
    let cat = catalog_spec();
    let key = lower_of(s);
    lemma_catalog_texts();
    lemma_find_from(cat, key, 0);
    if entry_matches(cat[i], key) {
        assert(key.len() > 0);
        assert forall|j: int| 0 <= j < i implies !entry_matches(#[trigger] cat[j], key) by {
            if key == cat[i].0 {
                assert(cat[j].0 != cat[i].0);
                assert forall|l: int| 0 <= l < cat[j].1.len() implies cat[j].1[l] != key by {
                    assert(cat[i].0 != cat[j].1[l]);
                }
            } else {
                let k = choose|k: int| 0 <= k < cat[i].1.len() && #[trigger] cat[i].1[k] == key;
                assert(cat[j].0 != cat[i].1[k]);
                assert forall|l: int| 0 <= l < cat[j].1.len() implies cat[j].1[l] != key by {
                    assert(cat[j].1[l] != cat[i].1[k]);
                }
            }
        }
        match find_from(cat, key, 0) {
            Some(f) => {
                if f > i {
                    assert(!entry_matches(cat[i], key));
                }
            },
            None => {
                assert(!entry_matches(cat[i], key));
            },
        }
    }
}

} // verus!
