//! Condition tokens of a run: given by the caller, or extracted from the image.
//!
//! Two functions come from outside: one checks what a caller gave, and one
//! extracts tokens.
use crate::arith::{sat, saturating_mul};
use crate::overrides::{TrellisNoiseOverrides, TrellisStageConditioning};
use crate::pipeline_config::{is_512_pipeline, prefers_512};
use crate::text::{decimal, push_usize};
use vstd::prelude::*;
use vstd::string::*;

verus! {

/// Channels of a condition token.
pub const COND_CHANNELS: usize = 1024;

/// Condition tokens at the lower resolution.
pub const TOKENS_512: usize = 1029;

/// Condition tokens at the higher resolution.
pub const TOKENS_1024: usize = 4101;

/// Outcome for the condition: what the caller gave where the check takes it,
/// and extracted tokens where nothing was given.
pub open spec fn cond_outcome<F, V, X>(
    given: Option<&Vec<F>>,
    stage: &str,
    resolution: usize,
    tokens: usize,
    validate: V,
    extract: X,
    out: Result<Vec<F>, String>,
) -> bool where
    V: Fn(usize, Option<&Vec<F>>, &str, &str) -> Result<Option<Vec<F>>, String>,
    X: Fn(&str, usize, usize, usize) -> Result<Vec<F>, String>,
 {
    exists|checked: Result<Option<Vec<F>>, String>| #[trigger]
        call_ensures(validate, ((tokens * COND_CHANNELS) as usize, given, stage, "cond"), checked)
            && match checked {
            Err(msg) => out == Err::<Vec<F>, String>(msg),
            Ok(Some(values)) => out == Ok::<Vec<F>, String>(values),
            Ok(None) => call_ensures(extract, (stage, resolution, tokens, COND_CHANNELS), out),
        }
}

/// Outcome for the negative condition: what the caller gave where the check
/// takes it, and zeros where nothing was given.
pub open spec fn neg_cond_outcome<F, V>(
    given: Option<&Vec<F>>,
    stage: &str,
    tokens: usize,
    zero: F,
    validate: V,
    out: Result<Vec<F>, String>,
) -> bool where V: Fn(usize, Option<&Vec<F>>, &str, &str) -> Result<Option<Vec<F>>, String> {
    exists|checked: Result<Option<Vec<F>>, String>| #[trigger]
        call_ensures(
            validate,
            ((tokens * COND_CHANNELS) as usize, given, stage, "neg-cond"),
            checked,
        ) && match checked {
            Err(msg) => out == Err::<Vec<F>, String>(msg),
            Ok(Some(values)) => out == Ok::<Vec<F>, String>(values),
            Ok(None) => out matches Ok(zeros) && zeros@ == Seq::new(
                (tokens * COND_CHANNELS) as nat,
                |i: int| zero,
            ),
        }
}

/// Outcome for one resolution: the condition first, then its negative.
pub open spec fn pair_outcome<F, V, X>(
    given: Option<&Vec<F>>,
    neg_given: Option<&Vec<F>>,
    stage: &str,
    resolution: usize,
    tokens: usize,
    zero: F,
    validate: V,
    extract: X,
    out: Result<(Vec<F>, Vec<F>), String>,
) -> bool where
    V: Fn(usize, Option<&Vec<F>>, &str, &str) -> Result<Option<Vec<F>>, String>,
    X: Fn(&str, usize, usize, usize) -> Result<Vec<F>, String>,
 {
    exists|cond: Result<Vec<F>, String>| #[trigger]
        cond_outcome(given, stage, resolution, tokens, validate, extract, cond) && match cond {
            Err(msg) => out == Err::<(Vec<F>, Vec<F>), String>(msg),
            Ok(values) => exists|neg: Result<Vec<F>, String>| #[trigger]
                neg_cond_outcome(neg_given, stage, tokens, zero, validate, neg) && match neg {
                    Err(msg) => out == Err::<(Vec<F>, Vec<F>), String>(msg),
                    Ok(neg_values) => out == Ok::<(Vec<F>, Vec<F>), String>((values, neg_values)),
                },
        }
}

/// `n` equal values.
fn filled<F: Copy>(value: F, n: usize) -> (r: Vec<F>)
    ensures
        r@ == Seq::new(n as nat, |i: int| value),
{
    let mut out: Vec<F> = Vec::new();
    let mut i: usize = 0;
    while i < n
        invariant
            i <= n,
            out@ == Seq::new(i as nat, |j: int| value),
        decreases n - i,
    {
        out.push(value);
        i = i + 1;
        assert(out@ =~= Seq::new(i as nat, |j: int| value));
    }
    out
}

fn resolve_pair<F: Copy, V, X>(
    given: Option<&Vec<F>>,
    neg_given: Option<&Vec<F>>,
    stage: &'static str,
    resolution: usize,
    tokens: usize,
    zero: F,
    validate: &V,
    extract: &X,
) -> (r: Result<(Vec<F>, Vec<F>), String>) where
    V: Fn(usize, Option<&Vec<F>>, &str, &str) -> Result<Option<Vec<F>>, String>,
    X: Fn(&str, usize, usize, usize) -> Result<Vec<F>, String>,

    requires
        tokens <= 10_000,
        forall|n: usize, g: Option<&Vec<F>>, s: &str, kind: &str|
            call_requires(*validate, (n, g, s, kind)),
        forall|s: &str, a: usize, b: usize, c: usize| call_requires(*extract, (s, a, b, c)),
    ensures
        pair_outcome(given, neg_given, stage, resolution, tokens, zero, *validate, *extract, r),
{
    let expected: usize = tokens * COND_CHANNELS;
    let checked: Result<Option<Vec<F>>, String> = validate(expected, given, stage, "cond");
    let ghost checked_ghost = checked;
    let cond: Result<Vec<F>, String> = match checked {
        Err(msg) => Err(msg),
        Ok(Some(values)) => Ok(values),
        Ok(None) => extract(stage, resolution, tokens, COND_CHANNELS),
    };
    assert(call_ensures(*validate, (expected, given, stage, "cond"), checked_ghost));
    assert(cond_outcome(given, stage, resolution, tokens, *validate, *extract, cond));
    let ghost cond_ghost = cond;
    match cond {
        Err(msg) => {
            let failed: Result<(Vec<F>, Vec<F>), String> = Err(msg);
            failed
        },
        Ok(values) => {
            let checked: Result<Option<Vec<F>>, String> = validate(
                expected,
                neg_given,
                stage,
                "neg-cond",
            );
            let ghost checked_ghost = checked;
            let neg: Result<Vec<F>, String> = match checked {
                Err(msg) => Err(msg),
                Ok(Some(neg_values)) => Ok(neg_values),
                Ok(None) => Ok(filled(zero, expected)),
            };
            assert(call_ensures(
                *validate,
                (expected, neg_given, stage, "neg-cond"),
                checked_ghost,
            ));
            assert(neg_cond_outcome(neg_given, stage, tokens, zero, *validate, neg));
            match neg {
                Err(msg) => Err(msg),
                Ok(neg_values) => Ok((values, neg_values)),
            }
        },
    }
}

/// What the caller gave for one field.
pub open spec fn cond_512_of<'a, F>(overrides: Option<&'a TrellisNoiseOverrides<F>>) -> Option<
    &'a Vec<F>,
> {
    match overrides {
        Some(o) => match &o.cond_512 {
            Some(values) => Some(values),
            None => None,
        },
        None => None,
    }
}

/// What the caller gave for one field.
pub open spec fn neg_cond_512_of<'a, F>(overrides: Option<&'a TrellisNoiseOverrides<F>>) -> Option<
    &'a Vec<F>,
> {
    match overrides {
        Some(o) => match &o.neg_cond_512 {
            Some(values) => Some(values),
            None => None,
        },
        None => None,
    }
}

/// What the caller gave for one field.
pub open spec fn cond_1024_of<'a, F>(overrides: Option<&'a TrellisNoiseOverrides<F>>) -> Option<
    &'a Vec<F>,
> {
    match overrides {
        Some(o) => match &o.cond_1024 {
            Some(values) => Some(values),
            None => None,
        },
        None => None,
    }
}

/// What the caller gave for one field.
pub open spec fn neg_cond_1024_of<'a, F>(
    overrides: Option<&'a TrellisNoiseOverrides<F>>,
) -> Option<&'a Vec<F>> {
    match overrides {
        Some(o) => match &o.neg_cond_1024 {
            Some(values) => Some(values),
            None => None,
        },
        None => None,
    }
}

/// Outcome at the lower resolution.
pub open spec fn outcome_512<F, V, X>(
    overrides: Option<&TrellisNoiseOverrides<F>>,
    zero: F,
    validate: V,
    extract: X,
    out: Result<(Vec<F>, Vec<F>), String>,
) -> bool where
    V: Fn(usize, Option<&Vec<F>>, &str, &str) -> Result<Option<Vec<F>>, String>,
    X: Fn(&str, usize, usize, usize) -> Result<Vec<F>, String>,
 {
    pair_outcome(
        cond_512_of(overrides),
        neg_cond_512_of(overrides),
        "get_cond_512",
        512,
        TOKENS_512,
        zero,
        validate,
        extract,
        out,
    )
}

/// Outcome at the higher resolution.
pub open spec fn outcome_1024<F, V, X>(
    overrides: Option<&TrellisNoiseOverrides<F>>,
    zero: F,
    validate: V,
    extract: X,
    out: Result<(Vec<F>, Vec<F>), String>,
) -> bool where
    V: Fn(usize, Option<&Vec<F>>, &str, &str) -> Result<Option<Vec<F>>, String>,
    X: Fn(&str, usize, usize, usize) -> Result<Vec<F>, String>,
 {
    pair_outcome(
        cond_1024_of(overrides),
        neg_cond_1024_of(overrides),
        "get_cond_1024",
        1024,
        TOKENS_1024,
        zero,
        validate,
        extract,
        out,
    )
}

/// Outcome of resolving the conditioning of a run: the lower resolution first,
/// the higher one after it and only where the pipeline works at it.
pub open spec fn conditioning_outcome<F, V, X>(
    pipeline_type: Seq<char>,
    overrides: Option<&TrellisNoiseOverrides<F>>,
    zero: F,
    validate: V,
    extract: X,
    out: Result<TrellisStageConditioning<F>, String>,
) -> bool where
    V: Fn(usize, Option<&Vec<F>>, &str, &str) -> Result<Option<Vec<F>>, String>,
    X: Fn(&str, usize, usize, usize) -> Result<Vec<F>, String>,
 {
    exists|low: Result<(Vec<F>, Vec<F>), String>| #[trigger]
        outcome_512(overrides, zero, validate, extract, low) && match low {
            Err(msg) => out == Err::<TrellisStageConditioning<F>, String>(msg),
            Ok((cond_512, neg_cond_512)) => if is_512_pipeline(pipeline_type) {
                out == Ok::<TrellisStageConditioning<F>, String>(
                    TrellisStageConditioning {
                        cond_512,
                        neg_cond_512,
                        cond_1024: None,
                        neg_cond_1024: None,
                    },
                )
            } else {
                exists|high: Result<(Vec<F>, Vec<F>), String>| #[trigger]
                    outcome_1024(overrides, zero, validate, extract, high) && match high {
                        Err(msg) => out == Err::<TrellisStageConditioning<F>, String>(msg),
                        Ok((cond_1024, neg_cond_1024)) => out == Ok::<
                            TrellisStageConditioning<F>,
                            String,
                        >(
                            TrellisStageConditioning {
                                cond_512,
                                neg_cond_512,
                                cond_1024: Some(cond_1024),
                                neg_cond_1024: Some(neg_cond_1024),
                            },
                        ),
                    }
            },
        }
}

/// Resolves the conditioning of a run. The higher resolution is resolved after
/// the lower one, and only where the pipeline works at it.
pub fn resolve_runtime_conditioning<F: Copy, V, X>(
    pipeline_type: &str,
    overrides: Option<&TrellisNoiseOverrides<F>>,
    zero: F,
    validate: V,
    extract: X,
) -> (r: Result<TrellisStageConditioning<F>, String>) where
    V: Fn(usize, Option<&Vec<F>>, &str, &str) -> Result<Option<Vec<F>>, String>,
    X: Fn(&str, usize, usize, usize) -> Result<Vec<F>, String>,

    requires
        forall|n: usize, g: Option<&Vec<F>>, s: &str, kind: &str|
            call_requires(validate, (n, g, s, kind)),
        forall|s: &str, a: usize, b: usize, c: usize| call_requires(extract, (s, a, b, c)),
    ensures
        conditioning_outcome(pipeline_type@, overrides, zero, validate, extract, r),
{
    let low: Result<(Vec<F>, Vec<F>), String> = resolve_pair(
        match overrides {
            Some(o) => o.cond_512.as_ref(),
            None => None,
        },
        match overrides {
            Some(o) => o.neg_cond_512.as_ref(),
            None => None,
        },
        "get_cond_512",
        512,
        TOKENS_512,
        zero,
        &validate,
        &extract,
    );
    assert(outcome_512(overrides, zero, validate, extract, low));
    match low {
        Err(msg) => Err(msg),
        Ok((cond_512, neg_cond_512)) => {
            if prefers_512(pipeline_type) {
                return Ok(
                    TrellisStageConditioning {
                        cond_512,
                        neg_cond_512,
                        cond_1024: None,
                        neg_cond_1024: None,
                    },
                );
            }
            let high: Result<(Vec<F>, Vec<F>), String> = resolve_pair(
                match overrides {
                    Some(o) => o.cond_1024.as_ref(),
                    None => None,
                },
                match overrides {
                    Some(o) => o.neg_cond_1024.as_ref(),
                    None => None,
                },
                "get_cond_1024",
                1024,
                TOKENS_1024,
                zero,
                &validate,
                &extract,
            );
            assert(outcome_1024(overrides, zero, validate, extract, high));
            match high {
                Err(msg) => Err(msg),
                Ok((cond_1024, neg_cond_1024)) => Ok(
                    TrellisStageConditioning {
                        cond_512,
                        neg_cond_512,
                        cond_1024: Some(cond_1024),
                        neg_cond_1024: Some(neg_cond_1024),
                    },
                ),
            }
        },
    }
}

// ---------------------------------------------------------------------------
// Extraction
// ---------------------------------------------------------------------------

/// Tokens as the image-conditioning model gives them.
#[derive(Debug)]
pub struct ExtractedCondition<F> {
    pub token_count: usize,
    pub channels: usize,
    pub resolution: usize,
    pub values: Vec<F>,
}

/// How an extraction went.
#[derive(Debug)]
pub enum Extraction<F> {
    /// There is no image-conditioning model.
    NoModel,
    /// The model failed on a backend.
    Failed { backend: String, error: String },
    /// The model gave tokens.
    Done(ExtractedCondition<F>),
}

/// Why an extraction is refused. `missing` says what is missing.
pub open spec fn extraction_fault<F>(
    extraction: Extraction<F>,
    missing: Seq<char>,
    stage: Seq<char>,
    tokens: int,
    channels: int,
) -> Option<Seq<char>> {
    match extraction {
        Extraction::NoModel => Some(
            missing + " no internal image-conditioning runtime model is available for stage '"@
                + stage + "'."@,
        ),
        Extraction::Failed { backend, error } => Some(
            missing + " internal image-conditioning extraction failed on backend '"@ + backend@
                + "' for stage '"@ + stage + "': "@ + error@,
        ),
        Extraction::Done(output) => if output.token_count != tokens || output.channels
            != channels {
            Some(
                missing + " internal image-conditioning extractor returned tokens="@ + decimal(
                    output.token_count as nat,
                ) + " channels="@ + decimal(output.channels as nat) + " (resolution="@ + decimal(
                    output.resolution as nat,
                ) + ")."@,
            )
        } else if output.values@.len() != sat(tokens * channels) {
            Some(
                missing + " internal image-conditioning extractor returned "@ + decimal(
                    output.values@.len(),
                ) + " values (expected "@ + decimal(sat(tokens * channels) as nat)
                    + ")."@,
            )
        } else {
            None
        },
    }
}

/// Takes the tokens of an extraction that has the expected shape.
pub fn extract_runtime_conditioning<F>(
    extraction: Extraction<F>,
    missing: &str,
    stage: &str,
    cond_tokens: usize,
    cond_channels: usize,
) -> (r: Result<Vec<F>, String>)
    ensures
        match extraction_fault(
            extraction,
            missing@,
            stage@,
            cond_tokens as int,
            cond_channels as int,
        ) {
            None => extraction matches Extraction::Done(output) && r == Ok::<Vec<F>, String>(
                output.values,
            ),
            Some(text) => r matches Err(msg) && msg@ == text,
        },
{
    let expected: usize = saturating_mul(cond_tokens, cond_channels);
    let mut msg: String = missing.to_owned();
    match extraction {
        Extraction::NoModel => {
            msg.append(" no internal image-conditioning runtime model is available for stage '");
            msg.append(stage);
            msg.append("'.");
            Err(msg)
        },
        Extraction::Failed { backend, error } => {
            msg.append(" internal image-conditioning extraction failed on backend '");
            msg.append(backend.as_str());
            msg.append("' for stage '");
            msg.append(stage);
            msg.append("': ");
            msg.append(error.as_str());
            Err(msg)
        },
        Extraction::Done(output) => {
            if output.token_count != cond_tokens || output.channels != cond_channels {
                msg.append(" internal image-conditioning extractor returned tokens=");
                push_usize(&mut msg, output.token_count);
                msg.append(" channels=");
                push_usize(&mut msg, output.channels);
                msg.append(" (resolution=");
                push_usize(&mut msg, output.resolution);
                msg.append(").");
                return Err(msg);
            }
            if output.values.len() != expected {
                msg.append(" internal image-conditioning extractor returned ");
                push_usize(&mut msg, output.values.len());
                msg.append(" values (expected ");
                push_usize(&mut msg, expected);
                msg.append(").");
                return Err(msg);
            }
            Ok(output.values)
        },
    }
}

} // verus!
