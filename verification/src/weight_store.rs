//! Reading model weights from safetensors: the renaming of stored parameters
//! and the store that applies it.
use vstd::prelude::*;
use vstd::string::*;

verus! {

// ---------------------------------------------------------------------------
// Outside items
// ---------------------------------------------------------------------------

/// The renaming rules of `burn_store`.
#[verifier::external_type_specification]
#[verifier::external_body]
pub struct ExKeyRemapper(burn_store::KeyRemapper);

/// The safetensors store of `burn_store`.
#[verifier::external_type_specification]
#[verifier::external_body]
pub struct ExSafetensorsStore(burn_store::SafetensorsStore);

/// The rules that a remapper holds, in order: pattern and replacement.
pub uninterp spec fn remap_rules(remapper: burn_store::KeyRemapper) -> Seq<
    (Seq<char>, Seq<char>),
>;

/// Where a safetensors store reads from.
pub ghost enum StoreSource {
    /// Bytes in memory.
    Bytes(Seq<u8>),
    /// The file at a path.
    File(Seq<char>),
}

/// What a safetensors store reads, and how.
pub ghost struct StoreContents {
    /// Where the safetensors come from.
    pub source: StoreSource,
    /// Renaming rules, in order.
    pub rules: Seq<(Seq<char>, Seq<char>)>,
    /// Parameters are converted from the layout of PyTorch.
    pub from_pytorch: bool,
    /// Missing parameters are accepted.
    pub allow_partial: bool,
    /// Loaded parameters are validated.
    pub validate: bool,
}

/// What a safetensors store reads, and how.
pub uninterp spec fn store_contents(store: burn_store::SafetensorsStore) -> StoreContents;

/// A store without rules that validates and accepts no missing parameter.
pub open spec fn new_store(source: StoreSource) -> StoreContents {
    StoreContents {
        source,
        rules: Seq::<(Seq<char>, Seq<char>)>::empty(),
        from_pytorch: false,
        allow_partial: false,
        validate: true,
    }
}

/// `burn_store::KeyRemapper::new`: a remapper without rules.
#[verifier::external_body]
fn new_key_remapper() -> (r: burn_store::KeyRemapper)
    ensures
        remap_rules(r) == Seq::<(Seq<char>, Seq<char>)>::empty(),
{
    burn_store::KeyRemapper::new()
}

/// What the regular-expression compiler says of a pattern that it refuses.
pub uninterp spec fn pattern_complaint(pattern: Seq<char>) -> Option<Seq<char>>;

/// `burn_store::KeyRemapper::add_pattern`: where the pattern compiles, the
/// remapper with one rule more at its end; otherwise the compiler's complaint,
/// which depends on the pattern alone.
///
/// Which patterns compile is left to the regular-expression compiler.
#[verifier::external_body]
fn add_remap_pattern(remapper: burn_store::KeyRemapper, from: &str, to: &str) -> (r: Result<
    burn_store::KeyRemapper,
    String,
>)
    ensures
        match r {
            Ok(extended) => pattern_complaint(from@) is None && remap_rules(extended)
                == remap_rules(remapper).push((from@, to@)),
            Err(complaint) => pattern_complaint(from@) == Some(complaint@),
        },
{
    remapper.add_pattern(from, to).map_err(|err| err.to_string())
}

/// `burn_store::SafetensorsStore::from_bytes`: a store over bytes in memory,
/// without rules, that validates and accepts no missing parameter.
#[verifier::external_body]
fn store_from_bytes(bytes: Vec<u8>) -> (r: burn_store::SafetensorsStore)
    ensures
        store_contents(r) == new_store(StoreSource::Bytes(bytes@)),
{
    burn_store::SafetensorsStore::from_bytes(Some(bytes))
}

/// `burn_store::SafetensorsStore::from_file`: a store over the file at a path,
/// without rules, that validates and accepts no missing parameter. The file is
/// not touched before the store is read.
#[verifier::external_body]
fn store_from_file(path: &str) -> (r: burn_store::SafetensorsStore)
    ensures
        store_contents(r) == new_store(StoreSource::File(path@)),
{
    burn_store::SafetensorsStore::from_file(path)
}

/// `burn_store::SafetensorsStore::with_from_adapter` with
/// `burn_store::PyTorchToBurnAdapter`: parameters are converted from the layout
/// of PyTorch, everything else stays.
#[verifier::external_body]
fn store_from_pytorch(store: burn_store::SafetensorsStore) -> (r: burn_store::SafetensorsStore)
    ensures
        store_contents(r) == (StoreContents { from_pytorch: true, ..store_contents(store) }),
{
    store.with_from_adapter(burn_store::PyTorchToBurnAdapter)
}

/// `burn_store::SafetensorsStore::allow_partial`: sets whether missing
/// parameters are accepted, everything else stays.
#[verifier::external_body]
fn store_allow_partial(store: burn_store::SafetensorsStore, allow: bool) -> (r:
    burn_store::SafetensorsStore)
    ensures
        store_contents(r) == (StoreContents { allow_partial: allow, ..store_contents(store) }),
{
    store.allow_partial(allow)
}

/// `burn_store::SafetensorsStore::remap`: replaces the renaming rules by those
/// of the remapper, everything else stays.
#[verifier::external_body]
fn store_remap(store: burn_store::SafetensorsStore, remapper: burn_store::KeyRemapper) -> (r:
    burn_store::SafetensorsStore)
    ensures
        store_contents(r) == (StoreContents {
            rules: remap_rules(remapper),
            ..store_contents(store)
        }),
{
    store.remap(remapper)
}

/// `burn_store::SafetensorsStore::validate`: sets whether loaded parameters are
/// validated, everything else stays.
#[verifier::external_body]
fn store_validate(store: burn_store::SafetensorsStore, validate: bool) -> (r:
    burn_store::SafetensorsStore)
    ensures
        store_contents(r) == (StoreContents { validate, ..store_contents(store) }),
{
    store.validate(validate)
}

// ---------------------------------------------------------------------------
// Rules of the sparse-flow model
// ---------------------------------------------------------------------------

/// How stored parameters are renamed to the model's parameters, in order.
pub open spec fn sparse_flow_rules() -> Seq<(Seq<char>, Seq<char>)> {
    seq![
        ("^(t_embedder)\\.mlp\\.0\\.(weight|bias)$"@, "$1.mlp_0.$2"@),
        ("^(t_embedder)\\.mlp\\.2\\.(weight|bias)$"@, "$1.mlp_2.$2"@),
        ("^(adaLN_modulation)\\.1\\.(weight|bias)$"@, "ada_ln_modulation.$2"@),
        ("^(blocks\\.\\d+\\.mlp)\\.mlp\\.0\\.(weight|bias)$"@, "$1.mlp_0.$2"@),
        ("^(blocks\\.\\d+\\.mlp)\\.mlp\\.2\\.(weight|bias)$"@, "$1.mlp_2.$2"@),
        ("^(blocks\\.\\d+\\.norm2)\\.weight$"@, "$1.gamma"@),
        ("^(blocks\\.\\d+\\.norm2)\\.bias$"@, "$1.beta"@),
    ]
}

/// A list of rules as sequences of characters.
pub open spec fn rule_views(rules: Seq<(&'static str, &'static str)>) -> Seq<
    (Seq<char>, Seq<char>),
> {
    rules.map_values(|rule: (&'static str, &'static str)| (rule.0@, rule.1@))
}

/// How stored parameters are renamed to the model's parameters, in order.
pub fn key_remap_rules() -> (r: Vec<(&'static str, &'static str)>)
    ensures
        rule_views(r@) == sparse_flow_rules(),
{
    let mut rules: Vec<(&'static str, &'static str)> = Vec::new();
    rules.push(("^(t_embedder)\\.mlp\\.0\\.(weight|bias)$", "$1.mlp_0.$2"));
    rules.push(("^(t_embedder)\\.mlp\\.2\\.(weight|bias)$", "$1.mlp_2.$2"));
    rules.push(("^(adaLN_modulation)\\.1\\.(weight|bias)$", "ada_ln_modulation.$2"));
    rules.push(("^(blocks\\.\\d+\\.mlp)\\.mlp\\.0\\.(weight|bias)$", "$1.mlp_0.$2"));
    rules.push(("^(blocks\\.\\d+\\.mlp)\\.mlp\\.2\\.(weight|bias)$", "$1.mlp_2.$2"));
    rules.push(("^(blocks\\.\\d+\\.norm2)\\.weight$", "$1.gamma"));
    rules.push(("^(blocks\\.\\d+\\.norm2)\\.bias$", "$1.beta"));
    assert(rule_views(rules@) =~= sparse_flow_rules());
    rules
}

/// A rule that the regular-expression compiler refused, with its complaint.
pub open spec fn invalid_rule_text(
    from: Seq<char>,
    to: Seq<char>,
    complaint: Seq<char>,
) -> Seq<char> {
    "invalid sparse flow remap rule "@ + from + "->"@ + to + ": "@ + complaint
}

/// What is answered to a rule that the regular-expression compiler refused.
pub fn invalid_rule_message(from: &str, to: &str, complaint: &str) -> (r: String)
    ensures
        r@ == invalid_rule_text(from@, to@, complaint@),
{
    let mut out: String = "invalid sparse flow remap rule ".to_owned();
    out.append(from);
    out.append("->");
    out.append(to);
    out.append(": ");
    out.append(complaint);
    out
}

/// The regular-expression compiler accepts the first `n` rules.
pub open spec fn rules_compile(n: int) -> bool {
    forall|i: int| 0 <= i < n ==> pattern_complaint(#[trigger] sparse_flow_rules()[i].0) is None
}

/// The regular-expression compiler refuses rule `i` and no rule before it, and
/// `text` says so.
pub open spec fn rule_refused(i: int, text: Seq<char>) -> bool {
    &&& 0 <= i < sparse_flow_rules().len()
    &&& rules_compile(i)
    &&& pattern_complaint(sparse_flow_rules()[i].0) matches Some(complaint) && text
        == invalid_rule_text(sparse_flow_rules()[i].0, sparse_flow_rules()[i].1, complaint)
}

/// A remapper with the rules of the sparse-flow model, unless the
/// regular-expression compiler refuses one.
pub fn sparse_flow_key_remapper() -> (r: Result<burn_store::KeyRemapper, String>)
    ensures
        match r {
            Ok(remapper) => rules_compile(sparse_flow_rules().len() as int) && remap_rules(
                remapper,
            ) == sparse_flow_rules(),
            Err(msg) => exists|i: int| rule_refused(i, msg@),
        },
{
    let rules: Vec<(&'static str, &'static str)> = key_remap_rules();
    let ghost want = sparse_flow_rules();
    let mut remapper: burn_store::KeyRemapper = new_key_remapper();
    let mut i: usize = 0;
    proof {
        assert(want.take(0) =~= Seq::<(Seq<char>, Seq<char>)>::empty());
    }
    while i < rules.len()
        invariant
            i <= rules.len(),
            want == sparse_flow_rules(),
            rule_views(rules@) == want,
            rules@.len() == want.len(),
            remap_rules(remapper) == want.take(i as int),
            rules_compile(i as int),
        decreases rules.len() - i,
    {
        let from: &'static str = rules[i].0;
        let to: &'static str = rules[i].1;
        proof {
            assert(want[i as int] == (from@, to@));
            assert(want.take(i as int + 1) =~= want.take(i as int).push(want[i as int]));
        }
        remapper = match add_remap_pattern(remapper, from, to) {
            Ok(extended) => extended,
            Err(complaint) => {
                let msg: String = invalid_rule_message(from, to, complaint.as_str());
                let failed: Result<burn_store::KeyRemapper, String> = Err(msg);
                assert(rule_refused(i as int, failed->Err_0@));
                return failed;
            },
        };
        i = i + 1;
    }
    proof {
        assert(want.take(want.len() as int) =~= want);
    }
    Ok(remapper)
}

/// A store that reads the weights of a sparse-flow model: with the model's
/// renaming, from the layout of PyTorch, validated and complete.
pub open spec fn sparse_flow_store(source: StoreSource) -> StoreContents {
    StoreContents {
        source,
        rules: sparse_flow_rules(),
        from_pytorch: true,
        allow_partial: false,
        validate: true,
    }
}

/// Outcome of building a store: it reads as the model needs it, unless the
/// regular-expression compiler refuses a rule.
pub open spec fn store_outcome(
    source: StoreSource,
    out: Result<burn_store::SafetensorsStore, String>,
) -> bool {
    match out {
        Ok(store) => rules_compile(sparse_flow_rules().len() as int) && store_contents(store)
            == sparse_flow_store(source),
        Err(msg) => exists|i: int| rule_refused(i, msg@),
    }
}

/// Sets a new store up for a sparse-flow model.
fn configured(store: burn_store::SafetensorsStore, source: Ghost<StoreSource>) -> (r: Result<
    burn_store::SafetensorsStore,
    String,
>)
    requires
        store_contents(store) == new_store(source@),
    ensures
        store_outcome(source@, r),
{
    let remapper: burn_store::KeyRemapper = match sparse_flow_key_remapper() {
        Ok(remapper) => remapper,
        Err(msg) => {
            let failed: Result<burn_store::SafetensorsStore, String> = Err(msg);
            assert(failed->Err_0@ == msg@);
            return failed;
        },
    };
    let store: burn_store::SafetensorsStore = store_from_pytorch(store);
    let store: burn_store::SafetensorsStore = store_allow_partial(store, false);
    let store: burn_store::SafetensorsStore = store_remap(store, remapper);
    Ok(store_validate(store, true))
}

/// A store that reads the weights of a sparse-flow model from a file.
pub fn build_safetensor_store(path: &str) -> (r: Result<burn_store::SafetensorsStore, String>)
    ensures
        store_outcome(StoreSource::File(path@), r),
{
    configured(store_from_file(path), Ghost(StoreSource::File(path@)))
}

/// A store that reads the weights of a sparse-flow model from bytes.
pub fn build_safetensor_store_from_bytes(bytes: Vec<u8>) -> (r: Result<
    burn_store::SafetensorsStore,
    String,
>)
    ensures
        store_outcome(StoreSource::Bytes(bytes@), r),
{
    let ghost source = StoreSource::Bytes(bytes@);
    configured(store_from_bytes(bytes), Ghost(source))
}

} // verus!
