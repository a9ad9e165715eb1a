//! Velocities of a flow model: a request is checked, the concatenated
//! condition joins the state, and the model runs.
//!
//! Tensors are of a type `T`; what is done with them is handed in.
use crate::arith::imax;
use crate::flow_config::SparseStructureFlowConfig;
use crate::sampling_checks::{
    check_condition, check_dense_request, check_dense_tensor, check_sparse_tensor,
    dense_request_fault, dense_tensor_fault, merge_dense_input, sparse_tensor_fault,
    timestep_count,
};
use crate::text::text2;
use vstd::prelude::*;

verus! {

/// A condition of `cond_tokens` tokens as a tensor, which `upload` makes of
/// its values, tokens and channels.
pub fn prepare_condition<F, T, U>(
    cond: &[F],
    cond_tokens: usize,
    cond_channels: usize,
    upload: U,
) -> (r: Result<T, String>) where U: Fn(&[F], usize, usize) -> T
    requires
        cond_tokens * cond_channels <= usize::MAX,
        forall|values: &[F], tokens: usize, channels: usize|
            call_requires(upload, (values, tokens, channels)),
    ensures
        match r {
            Ok(tensor) => cond@.len() == cond_tokens * cond_channels && call_ensures(
                upload,
                (cond, cond_tokens, cond_channels),
                tensor,
            ),
            Err(msg) => cond@.len() != cond_tokens * cond_channels && msg@ == text2(
                "sparse flow cond length mismatch: expected "@,
                cond_tokens * cond_channels,
                ", got "@,
                cond@.len() as int,
            ),
        },
{
    match check_condition(cond.len(), cond_tokens, cond_channels) {
        Ok(()) => Ok(upload(cond, cond_tokens, cond_channels)),
        Err(msg) => Err(msg),
    }
}

/// Length of a condition that may be given.
pub open spec fn given_length<F>(concat: Option<&[F]>) -> Option<usize> {
    match concat {
        Some(values) => Some(values@.len() as usize),
        None => None,
    }
}

/// The velocity at a dense sample on the host. `forward` runs the model on the
/// sample with the concatenated condition behind it.
pub fn predict_velocity_with_condition<F: Copy, N, G>(
    config: &SparseStructureFlowConfig<N>,
    x_t: &[F],
    concat: Option<&[F]>,
    forward: G,
) -> (r: Result<Vec<F>, String>) where G: Fn(Vec<F>) -> Result<Vec<F>, String>
    requires
        config.resolution * config.resolution * config.resolution <= usize::MAX,
        config.resolution > 0 || x_t@.len() > 0,
        forall|input: Vec<F>| call_requires(forward, (input,)),
    ensures
        match dense_request_fault(
            config.resolution as int,
            x_t@.len() as int,
            given_length(concat),
            config.in_channels as int,
            config.out_channels as int,
        ) {
            Some(text) => r matches Err(msg) && msg@ == text,
            None => exists|input: Vec<F>| #[trigger]
                call_ensures(forward, (input,), r) && input@ == (match concat {
                    Some(values) => x_t@ + values@,
                    None => x_t@,
                }),
        },
{
    let concat_len: Option<usize> = match concat {
        Some(values) => Some(values.len()),
        None => None,
    };
    match check_dense_request(
        config.resolution,
        x_t.len(),
        concat_len,
        config.in_channels,
        config.out_channels,
    ) {
        Ok(_) => {
            let input: Vec<F> = merge_dense_input(x_t, concat);
            forward(input)
        },
        Err(msg) => Err(msg),
    }
}

/// `out` is what the model makes of a state joined with its concatenated
/// condition, over `batches` batch items.
pub open spec fn joined_forward<T, J, G>(
    x_t: T,
    concat: Option<T>,
    batches: int,
    join: J,
    forward: G,
    out: T,
) -> bool where J: Fn(T, T) -> T, G: Fn(T, usize) -> T {
    let timesteps = imax(batches, 1) as usize;
    match concat {
        Some(values) => exists|joined: T| #[trigger]
            call_ensures(join, (x_t, values), joined) && call_ensures(
                forward,
                (joined, timesteps),
                out,
            ),
        None => call_ensures(forward, (x_t, timesteps), out),
    }
}

fn join_and_forward<T, J, G>(
    x_t: T,
    concat: Option<T>,
    batches: usize,
    join: &J,
    forward: &G,
) -> (r: T) where J: Fn(T, T) -> T, G: Fn(T, usize) -> T
    requires
        concat is Some ==> forall|a: T, b: T| call_requires(*join, (a, b)),
        forall|x: T, timesteps: usize| call_requires(*forward, (x, timesteps)),
    ensures
        joined_forward(x_t, concat, batches as int, *join, *forward, r),
{
    let timesteps: usize = timestep_count(batches);
    match concat {
        Some(values) => {
            let joined: T = join(x_t, values);
            let ghost joined_ghost = joined;
            assert(call_ensures(*join, (x_t, values), joined_ghost));
            forward(joined, timesteps)
        },
        None => forward(x_t, timesteps),
    }
}

/// A tensor with its dimensions `(channels, x, y, z)` beside the batch.
#[derive(Debug)]
pub struct DenseTensor<T> {
    pub tensor: T,
    pub dims: (usize, usize, usize, usize),
}

/// The tensor of a condition that may be given.
pub open spec fn dense_part<T>(given: Option<DenseTensor<T>>) -> Option<T> {
    match given {
        Some(part) => Some(part.tensor),
        None => None,
    }
}

/// The dimensions of a condition that may be given.
pub open spec fn dense_dims<T>(given: Option<DenseTensor<T>>) -> Option<
    (usize, usize, usize, usize),
> {
    match given {
        Some(part) => Some(part.dims),
        None => None,
    }
}

/// The velocity at a dense state of `batches` batch items. `forward` runs the
/// model with that many timesteps.
pub fn predict_velocity_tensor_with_cache<T, N, J, G>(
    config: &SparseStructureFlowConfig<N>,
    x_t: DenseTensor<T>,
    batches: usize,
    concat: Option<DenseTensor<T>>,
    join: J,
    forward: G,
) -> (r: Result<T, String>) where J: Fn(T, T) -> T, G: Fn(T, usize) -> T
    requires
        concat is Some ==> forall|a: T, b: T| call_requires(join, (a, b)),
        forall|x: T, timesteps: usize| call_requires(forward, (x, timesteps)),
    ensures
        match dense_tensor_fault(
            (
                x_t.dims.0 as int,
                x_t.dims.1 as int,
                x_t.dims.2 as int,
                x_t.dims.3 as int,
            ),
            dense_dims(concat),
            config.resolution as int,
            config.in_channels as int,
            config.out_channels as int,
        ) {
            Some(text) => r matches Err(msg) && msg@ == text,
            None => r matches Ok(out) && joined_forward(
                x_t.tensor,
                dense_part(concat),
                batches as int,
                join,
                forward,
                out,
            ),
        },
{
    let (concat, concat_dims): (Option<T>, Option<(usize, usize, usize, usize)>) = match concat {
        Some(part) => (Some(part.tensor), Some(part.dims)),
        None => (None, None),
    };
    match check_dense_tensor(
        x_t.dims,
        concat_dims,
        config.resolution,
        config.in_channels,
        config.out_channels,
    ) {
        Ok(()) => Ok(join_and_forward(x_t.tensor, concat, batches, &join, &forward)),
        Err(msg) => Err(msg),
    }
}

/// A tensor with its `(tokens, channels)` beside the batch.
#[derive(Debug)]
pub struct TokenTensor<T> {
    pub tensor: T,
    pub dims: (usize, usize),
}

/// The tensor of a condition that may be given.
pub open spec fn token_part<T>(given: Option<TokenTensor<T>>) -> Option<T> {
    match given {
        Some(part) => Some(part.tensor),
        None => None,
    }
}

/// The dimensions of a condition that may be given.
pub open spec fn token_dims<T>(given: Option<TokenTensor<T>>) -> Option<(usize, usize)> {
    match given {
        Some(part) => Some(part.dims),
        None => None,
    }
}

/// The velocity at sparse tokens of `batches` batch items; `coords` are the
/// rows and columns of their coordinates. `forward` runs the model with that
/// many timesteps.
pub fn predict_velocity_sparse_tensor_with_cache<T, N, J, G>(
    config: &SparseStructureFlowConfig<N>,
    x_t: TokenTensor<T>,
    batches: usize,
    coords: (usize, usize),
    concat: Option<TokenTensor<T>>,
    join: J,
    forward: G,
) -> (r: Result<T, String>) where J: Fn(T, T) -> T, G: Fn(T, usize) -> T
    requires
        concat is Some ==> forall|a: T, b: T| call_requires(join, (a, b)),
        forall|x: T, timesteps: usize| call_requires(forward, (x, timesteps)),
    ensures
        match sparse_tensor_fault(
            (x_t.dims.0 as int, x_t.dims.1 as int),
            (coords.0 as int, coords.1 as int),
            token_dims(concat),
            config.in_channels as int,
            config.out_channels as int,
        ) {
            Some(text) => r matches Err(msg) && msg@ == text,
            None => r matches Ok(out) && joined_forward(
                x_t.tensor,
                token_part(concat),
                batches as int,
                join,
                forward,
                out,
            ),
        },
{
    let (concat, concat_dims): (Option<T>, Option<(usize, usize)>) = match concat {
        Some(part) => (Some(part.tensor), Some(part.dims)),
        None => (None, None),
    };
    match check_sparse_tensor(
        x_t.dims,
        coords,
        concat_dims,
        config.in_channels,
        config.out_channels,
    ) {
        Ok(()) => Ok(join_and_forward(x_t.tensor, concat, batches, &join, &forward)),
        Err(msg) => Err(msg),
    }
}

} // verus!
