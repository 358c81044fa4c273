//! Processing modes and the per-batch configuration.

use vstd::prelude::*;

verus! {

/// Lowest quality the encoder accepts.
pub const MIN_QUALITY: u8 = 1;

/// Highest quality the encoder accepts.
pub const MAX_QUALITY: u8 = 100;

/// Largest bounding dimension a configuration may ask for.
pub const MAX_DIMENSION: u32 = 10000;

/// Size budget, in KiB, from which on the budget counts as unbounded.
pub const UNBOUNDED_TARGET_KB: u32 = 10000;

/// The closed set of processing modes.
#[derive(Clone, Copy, Debug, PartialEq, Eq, Structural)]
pub enum ProcessMode {
    /// Messaging preset: 900 KiB, 2048 px.
    WeChat,
    /// High-definition preset: 5000 KiB, 4096 px, strong sharpening.
    HD,
    /// Values supplied by the user.
    Custom,
}

/// Settings of one batch.
#[derive(Clone, Debug)]
pub struct ProcessConfig {
    pub mode: ProcessMode,
    pub target_kb: u32,
    pub max_dim: u32,
    pub quality: u8,
    pub output_dir: Option<String>,
    pub overwrite: bool,
    pub keep_original_name: bool,
}

/// `q` brought into `[MIN_QUALITY, MAX_QUALITY]`.
pub open spec fn clamp_quality(q: u8) -> u8 {
    if q < MIN_QUALITY {
        MIN_QUALITY
    } else if q > MAX_QUALITY {
        MAX_QUALITY
    } else {
        q
    }
}

/// `d` brought into `[1, MAX_DIMENSION]`.
pub open spec fn clamp_dimension(d: u32) -> u32 {
    if d < 1 {
        1
    } else if d > MAX_DIMENSION {
        MAX_DIMENSION
    } else {
        d
    }
}

/// A budget of zero stands for "no size constraint".
pub open spec fn normalize_target(kb: u32) -> u32 {
    if kb == 0 {
        UNBOUNDED_TARGET_KB
    } else {
        kb
    }
}

impl ProcessConfig {
    /// The ranges every stage of the pipeline relies on.
    pub open spec fn is_valid(&self) -> bool {
        &&& MIN_QUALITY <= self.quality <= MAX_QUALITY
        &&& 1 <= self.max_dim <= MAX_DIMENSION
        &&& self.target_kb > 0
    }

    /// What `validate` turns a configuration into.
    pub open spec fn validated(self) -> ProcessConfig {
        ProcessConfig {
            quality: clamp_quality(self.quality),
            max_dim: clamp_dimension(self.max_dim),
            target_kb: normalize_target(self.target_kb),
            ..self
        }
    }

    /// The configuration that `mode` stands for. The two presets fix
    /// dimension, quality and budget; `Custom` takes the given values.
    pub open spec fn preset_spec(
        mode: ProcessMode,
        custom_max_dim: u32,
        custom_quality: u8,
        custom_target_kb: u32,
        output_dir: Option<String>,
        overwrite: bool,
        keep_original_name: bool,
    ) -> ProcessConfig {
        match mode {
            ProcessMode::WeChat => ProcessConfig {
                mode,
                max_dim: 2048,
                quality: 85,
                target_kb: 900,
                output_dir,
                overwrite,
                keep_original_name,
            },
            ProcessMode::HD => ProcessConfig {
                mode,
                max_dim: 4096,
                quality: 95,
                target_kb: 5000,
                output_dir,
                overwrite,
                keep_original_name,
            },
            ProcessMode::Custom => ProcessConfig {
                mode,
                max_dim: custom_max_dim,
                quality: custom_quality,
                target_kb: custom_target_kb,
                output_dir,
                overwrite,
                keep_original_name,
            },
        }
    }

    /// Builds the configuration of a batch from the chosen mode and the
    /// user's custom values.
    pub fn preset(
        mode: ProcessMode,
        custom_max_dim: u32,
        custom_quality: u8,
        custom_target_kb: u32,
        output_dir: Option<String>,
        overwrite: bool,
        keep_original_name: bool,
    ) -> (config: ProcessConfig)
        ensures
            config == Self::preset_spec(
                mode,
                custom_max_dim,
                custom_quality,
                custom_target_kb,
                output_dir,
                overwrite,
                keep_original_name,
            ),
            mode != ProcessMode::Custom ==> config.is_valid(),
    {
        match mode {
            ProcessMode::WeChat => ProcessConfig {
                mode,
                max_dim: 2048,
                quality: 85,
                target_kb: 900,
                output_dir,
                overwrite,
                keep_original_name,
            },
            ProcessMode::HD => ProcessConfig {
                mode,
                max_dim: 4096,
                quality: 95,
                target_kb: 5000,
                output_dir,
                overwrite,
                keep_original_name,
            },
            ProcessMode::Custom => ProcessConfig {
                mode,
                max_dim: custom_max_dim,
                quality: custom_quality,
                target_kb: custom_target_kb,
                output_dir,
                overwrite,
                keep_original_name,
            },
        }
    }

    /// Clamps quality and bounding dimension into range and turns a zero
    /// budget into the unbounded one. Nothing is rejected.
    pub fn validate(&mut self)
        ensures
            *final(self) == old(self).validated(),
            final(self).is_valid(),
    {
        if self.quality < MIN_QUALITY {
            self.quality = MIN_QUALITY;
        } else if self.quality > MAX_QUALITY {
            self.quality = MAX_QUALITY;
        }
        if self.max_dim < 1 {
            self.max_dim = 1;
        } else if self.max_dim > MAX_DIMENSION {
            self.max_dim = MAX_DIMENSION;
        }
        if self.target_kb == 0 {
            self.target_kb = UNBOUNDED_TARGET_KB;
        }
    }

    /// The byte budget: `target_kb` KiB.
    pub open spec fn target_bytes_spec(&self) -> nat {
        self.target_kb as nat * 1024
    }

    /// Whether the budget is large enough to count as "no size constraint".
    pub open spec fn is_unbounded_spec(&self) -> bool {
        self.target_kb >= UNBOUNDED_TARGET_KB
    }

    /// The byte budget: `target_kb` KiB.
    pub fn target_bytes(&self) -> (bytes: u64)
        ensures
            bytes == self.target_bytes_spec(),
    {
        self.target_kb as u64 * 1024
    }

    /// Whether the budget is large enough to count as "no size constraint".
    pub fn is_unbounded(&self) -> (unbounded: bool)
        ensures
            unbounded == self.is_unbounded_spec(),
    {
        self.target_kb >= UNBOUNDED_TARGET_KB
    }
}

/// Validation leaves a configuration that is already in range untouched,
/// so validating twice is the same as validating once.
pub proof fn lemma_validated_is_fixed_point(config: ProcessConfig)
    ensures
        config.validated().is_valid(),
        config.is_valid() ==> config.validated() == config,
        config.validated().validated() == config.validated(),
{
}

} // verus!
