//! Verified planning and control of sparse-flow inference.
//!
//! The library decides how a sparse-structure flow model runs on a tensor
//! backend: chunk sizes and number formats, the order of tensor operations,
//! guidance and sampling, the layout of sparse tensors, the loading of weights
//! and the stages of a pipeline. Tensors and floating-point numbers are type
//! parameters, and what is done with them is handed in as functions.
pub mod arith;
pub mod attention;
pub mod attention_calls;
pub mod attention_laws;
pub mod attention_run;
pub mod cache;
pub mod chunks;
pub mod conditioning;
pub mod cross_attention;
pub mod feed_forward;
pub mod flags;
pub mod flow_config;
pub mod flow_model;
pub mod kernels;
pub mod layout;
pub mod loading_laws;
pub mod overrides;
pub mod pipeline_config;
pub mod pipeline_laws;
pub mod pipeline_load;
pub mod pipeline_run;
pub mod pipeline_stages;
pub mod plan_laws;
pub mod policy;
pub mod policy_laws;
pub mod roots;
pub mod rope;
pub mod routes;
pub mod runtime_access;
pub mod sampler;
pub mod sampling;
pub mod sampling_checks;
pub mod sampling_laws;
pub mod sampling_runs;
pub mod schedule;
pub mod self_attention;
pub mod stage_samples;
pub mod telemetry;
pub mod tensor_laws;
pub mod tensors;
pub mod text;
pub mod transformer;
pub mod transformer_laws;
pub mod vae_decoder;
pub mod velocity;
pub mod weight_load;
pub mod weight_parts;
pub mod weight_store;
pub mod weights;
