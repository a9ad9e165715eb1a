use burn_trellis::pipeline_load::TrellisSamplerParams;
use burn_trellis::sampler::{FlowEulerGuidanceIntervalSampler, HostSampleTrace};
use burn_trellis::sampling::{FlowEulerSampleConfig, GuidanceState};

fn timestep_pairs(steps: usize, rescale_t: f32) -> Vec<(f32, f32)> {
    let rescaled = |t: f32| rescale_t * t / (1.0 + (rescale_t - 1.0) * t);
    (0..steps)
        .map(|i| {
            let a = 1.0 - (i as f32 / steps as f32);
            let b = 1.0 - ((i + 1) as f32 / steps as f32);
            (rescaled(a), rescaled(b))
        })
        .collect()
}

/// Functions of a run on plain numbers.
struct Run<'a, V: Fn(&[f32], bool) -> Vec<f32>> {
    sampler: &'a FlowEulerGuidanceIntervalSampler<f32>,
    config: FlowEulerSampleConfig<f32>,
    pairs: Vec<(f32, f32)>,
    velocity: V,
}

impl<'a, V: Fn(&[f32], bool) -> Vec<f32>> Run<'a, V> {
    fn new(
        sampler: &'a FlowEulerGuidanceIntervalSampler<f32>,
        config: FlowEulerSampleConfig<f32>,
        velocity: V,
    ) -> Self {
        let pairs = timestep_pairs(config.steps, config.rescale_t);
        Run { sampler, config, pairs, velocity }
    }

    fn guidance(&self, i: usize) -> GuidanceState {
        let t = self.pairs[i].0;
        let [low, high] = self.config.guidance_interval;
        let w = self.config.guidance_strength;
        GuidanceState {
            in_interval: low <= t && t <= high,
            strength_is_one: (w - 1.0).abs() < f32::EPSILON,
            strength_is_zero: w.abs() < f32::EPSILON,
        }
    }

    fn mix(&self, pos: f32, neg: f32) -> f32 {
        let w = self.config.guidance_strength;
        w * pos + (1.0 - w) * neg
    }

    fn rescale(&self, sigma_min: f32, x: &[f32], pos: &[f32], mixed: &[f32], i: usize) -> Vec<f32> {
        assert_eq!(sigma_min, self.sampler.sigma_min());
        assert_eq!(x.len(), pos.len());
        assert!(i < self.pairs.len());
        mixed.iter().map(|v| v * 0.5).collect()
    }

    fn advance(&self, value: f32, v: f32, i: usize) -> f32 {
        value - (self.pairs[i].0 - self.pairs[i].1) * v
    }

    fn trace(&self, noise: &Vec<f32>) -> HostSampleTrace<f32> {
        self.sampler.sample_with_trace(
            noise,
            self.config.steps,
            self.config.guidance_rescale > 0.0,
            |i: usize| self.guidance(i),
            |x: &Vec<f32>, _i: usize, positive: bool| (self.velocity)(x, positive),
            |pos: f32, neg: f32| self.mix(pos, neg),
            |s: f32, x: &Vec<f32>, pos: &Vec<f32>, mixed: &Vec<f32>, i: usize| {
                self.rescale(s, x, pos, mixed, i)
            },
            |value: f32, v: f32, i: usize| self.advance(value, v, i),
        )
    }

    fn sample(&self, noise: &Vec<f32>) -> Vec<f32> {
        self.sampler.sample(
            noise,
            self.config.steps,
            self.config.guidance_rescale > 0.0,
            |i: usize| self.guidance(i),
            |x: &Vec<f32>, _i: usize, positive: bool| (self.velocity)(x, positive),
            |pos: f32, neg: f32| self.mix(pos, neg),
            |s: f32, x: &Vec<f32>, pos: &Vec<f32>, mixed: &Vec<f32>, i: usize| {
                self.rescale(s, x, pos, mixed, i)
            },
            |value: f32, v: f32, i: usize| self.advance(value, v, i),
        )
    }
}

#[test]
fn converges_to_target_for_identity_velocity() {
    let sampler = FlowEulerGuidanceIntervalSampler::new(1.0e-5);
    let noise = vec![1.0f32; 8];
    let cfg = FlowEulerSampleConfig {
        steps: 64,
        rescale_t: 1.0,
        guidance_strength: 1.0,
        guidance_rescale: 0.0,
        guidance_interval: [0.0, 1.0],
    };
    let run = Run::new(&sampler, cfg, |x_t: &[f32], _cond: bool| x_t.to_vec());
    let out = run.sample(&noise);
    let avg_abs = out.iter().map(|v| v.abs()).sum::<f32>() / out.len() as f32;
    assert!(avg_abs < 0.4, "expected decay toward zero, got {avg_abs}");
    assert_eq!(run.trace(&noise).samples, out);
}

#[test]
fn ignores_cfg_outside_interval() {
    let sampler = FlowEulerGuidanceIntervalSampler::new(1.0e-5);
    let noise = vec![0.5f32; 4];
    let cfg = FlowEulerSampleConfig {
        steps: 4,
        rescale_t: 1.0,
        guidance_strength: 9.0,
        guidance_rescale: 0.7,
        guidance_interval: [0.0, 0.1],
    };
    let run = Run::new(&sampler, cfg, |x_t: &[f32], cond: bool| {
        if cond {
            x_t.iter().map(|v| v * 0.5).collect()
        } else {
            x_t.iter().map(|v| v * 100.0).collect()
        }
    });
    let out = run.sample(&noise);
    assert!(out.iter().all(|v| v.abs() < 0.5));
    assert_eq!(run.trace(&noise).samples, out);
}

#[test]
fn guided_steps_mix_both_branches() {
    let sampler = FlowEulerGuidanceIntervalSampler::new(0.25);
    let cfg = |steps: usize, guidance_rescale: f32| FlowEulerSampleConfig {
        steps,
        rescale_t: 1.0,
        guidance_strength: 3.0,
        guidance_rescale,
        guidance_interval: [0.0, 1.0],
    };
    let velocity = |x: &[f32], cond: bool| vec![if cond { 2.0 } else { 1.0 }; x.len()];
    // 3 * 2 - 2 * 1 = 4 per unit of time.
    let out = Run::new(&sampler, cfg(2, 0.0), velocity).trace(&vec![8.0, 9.0]);
    assert_eq!(out.step_0_x_t, vec![6.0, 7.0]);
    assert_eq!(out.samples, vec![4.0, 5.0]);
    assert_eq!(out.step_last_x_t, out.samples);
    let alone = Run::new(&sampler, cfg(2, 0.0), velocity).sample(&vec![8.0, 9.0]);
    assert_eq!(alone, vec![4.0, 5.0]);
    let rescaled = Run::new(&sampler, cfg(1, 0.5), velocity).trace(&vec![8.0, 9.0]);
    assert_eq!(rescaled.samples, vec![6.0, 7.0]);
    let unmoved = Run::new(&sampler, cfg(0, 0.5), velocity).trace(&vec![8.0, 9.0]);
    assert_eq!(unmoved.samples, vec![8.0, 9.0]);
    assert_eq!(unmoved.step_0_x_t, vec![8.0, 9.0]);
    assert_eq!(unmoved.step_last_x_t, vec![8.0, 9.0]);
}

#[test]
fn sampler_settings_have_lower_bounds() {
    let params = TrellisSamplerParams {
        steps: 0,
        rescale_t: -1.0f32,
        guidance_strength: 7.5,
        guidance_rescale: -0.5,
        guidance_interval: [0.25, 0.75],
    };
    let (sampler, config) =
        FlowEulerGuidanceIntervalSampler::from_params(0.5, &params, f32::EPSILON, 0.0, f32::max);
    assert_eq!(sampler.sigma_min(), 0.5);
    assert_eq!(config.steps, 1);
    assert_eq!(config.rescale_t, f32::EPSILON);
    assert_eq!(config.guidance_strength, 7.5);
    assert_eq!(config.guidance_rescale, 0.0);
    assert_eq!(config.guidance_interval, [0.25, 0.75]);
}
