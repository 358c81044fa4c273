//! The per-file pipeline, in the stages between which its caller reads,
//! filters and writes.
//!
//! `prepare` takes the bytes of a file to a resized image and its
//! luminance statistics. From the statistics the caller derives the entropy
//! and asks `plan_filters` which blur and unsharp mask to apply. The
//! filtered image goes to `finish`, which encodes it within the size budget
//! and carries the EXIF segment over. `get_output_path` says where the
//! result belongs.

use vstd::prelude::*;
use crate::analysis::classify;
use crate::analysis::features_of;
use crate::analysis::gray_of;
use crate::analysis::luma_statistics;
use crate::analysis::to_luma;
use crate::analysis::ImageFeatures;
use crate::analysis::LumaStats;
use crate::buffer::drop_alpha;
use crate::buffer::sample_count;
use crate::buffer::RgbBuffer;
use crate::buffer::RgbaBuffer;
use crate::codec::decode;
use crate::codec::proxy_samples;
use crate::codec::resize_image;
use crate::codec::sample_proxy;
use crate::codec::SourceFormat;
use crate::config::ProcessConfig;
use crate::config::MAX_DIMENSION;
use crate::encoder::encodable_size;
use crate::encoder::encode_with_target_size;
use crate::encoder::target_size_encodes;
use crate::encoder::target_size_encoding;
use crate::encoder::target_size_quality;
use crate::encoder::MAX_ENCODES;
use crate::encoder::Encoded;
use crate::error::ProcessError;
use crate::exif::exif_preserved;
use crate::exif::preserve_exif;
use crate::filters::denoise_plan;
use crate::filters::plan_denoise;
use crate::filters::plan_sharpen;
use crate::filters::sharpen_plan;
use crate::filters::Ratio;
use crate::filters::UnsharpMask;
use crate::geometry::calculate_dimensions;
use crate::geometry::target_size;
use crate::geometry::Scale;
use crate::geometry::TargetSize;
use crate::paths::get_output_path;
use crate::paths::output_target;
use crate::paths::OutputTarget;

verus! {

/// What the first stage hands on: the resized image without alpha, the
/// luminance statistics of the source, and the factor it was scaled by.
#[derive(Debug)]
pub struct Prepared {
    pub image: RgbBuffer,
    pub stats: LumaStats,
    pub scale: Scale,
}

impl Prepared {
    /// What the first stage makes of a decoded image of `width` by `height`
    /// with the samples `rgba`, for a bounding dimension of `max_dim`: the
    /// image has pixels, the result has the target size and its factor, the
    /// statistics are those of the image's proxy, and an image already
    /// within the bound has kept its pixels.
    pub open spec fn follows(&self, max_dim: u32, rgba: Seq<u8>, width: u32, height: u32) -> bool {
        let t = target_size(width, height, max_dim);
        &&& width > 0
        &&& height > 0
        &&& rgba.len() == sample_count(width, height, 4)
        &&& self.scale == t.scale
        &&& self.scale.wf()
        &&& self.image.spec_width() == t.width
        &&& self.image.spec_height() == t.height
        &&& self.image.spec_width() <= MAX_DIMENSION
        &&& self.image.spec_height() <= MAX_DIMENSION
        &&& self.image.wf()
        &&& self.stats.describes(gray_of(proxy_samples(rgba, width, height)))
        &&& t.scale.is_identity() ==> self.image.samples() == drop_alpha(rgba)
    }
}

/// The filters one image receives, with the features they follow from.
#[derive(Clone, Copy, Debug, PartialEq, Eq, Structural)]
pub struct FilterPlan {
    pub features: ImageFeatures,
    /// Radius of the blur applied first, if any.
    pub denoise: Option<Ratio>,
    /// The unsharp mask applied after it.
    pub sharpen: UnsharpMask,
}

/// Runs the pipeline for one batch, under one validated configuration.
#[derive(Debug)]
pub struct Processor {
    config: ProcessConfig,
}

impl Processor {
    #[verifier::type_invariant]
    spec fn inv(&self) -> bool {
        self.config.is_valid()
    }

    /// The configuration in force.
    pub closed spec fn spec_config(&self) -> ProcessConfig {
        self.config
    }

    /// Validates the configuration and keeps it for the batch.
    pub fn new(config: ProcessConfig) -> (processor: Processor)
        ensures
            processor.spec_config() == config.validated(),
            processor.spec_config().is_valid(),
    {
        let mut config = config;
        config.validate();
        Processor { config }
    }

    /// The configuration in force. It is always in range.
    pub fn config(&self) -> (config: &ProcessConfig)
        ensures
            *config == self.spec_config(),
            config.is_valid(),
    {
        proof {
            use_type_invariant(self);
        }
        &self.config
    }

    /// The size an image of `w` by `h` is resized to. Neither side exceeds
    /// the bounding dimension, so both fit the encoder's 16 bits.
    pub fn calculate_dimensions(&self, w: u32, h: u32) -> (target: TargetSize)
        ensures
            target == target_size(w, h, self.spec_config().max_dim),
            target.scale.wf(),
            target.width <= w && target.width <= MAX_DIMENSION,
            target.height <= h && target.height <= MAX_DIMENSION,
            target.scale.is_identity() ==> target.width == w && target.height == h,
    {
        proof {
            use_type_invariant(self);
        }
        calculate_dimensions(w, h, self.config.max_dim)
    }

    /// Luminance statistics of the image's proxy: the image downsampled by
    /// nearest neighbour to at most 512 pixels a side and turned to gray.
    pub fn analyze_content(&self, image: &RgbaBuffer) -> (stats: LumaStats)
        ensures
            stats.describes(
                gray_of(proxy_samples(image.samples(), image.spec_width(), image.spec_height())),
            ),
    {
        let proxy = sample_proxy(image);
        let gray = to_luma(&proxy);
        luma_statistics(&gray)
    }

    /// Takes a decoded image through analysis and resampling.
    ///
    /// An image without pixels is refused, and no other. The image is
    /// resized to `target_size` for the configured bound; an image already
    /// within the bound comes back with its pixels unchanged.
    pub fn prepare_decoded(&self, image: &RgbaBuffer) -> (out: Result<Prepared, ProcessError>)
        ensures
            out is Ok <==> image.spec_width() > 0 && image.spec_height() > 0,
            out matches Err(e) ==> e == ProcessError::ZeroDimensions,
            out matches Ok(p) ==> p.follows(
                self.spec_config().max_dim,
                image.samples(),
                image.spec_width(),
                image.spec_height(),
            ),
    {
        let width: u32 = image.width();
        let height: u32 = image.height();
        if width == 0 || height == 0 {
            return Err(ProcessError::ZeroDimensions);
        }
        let stats = self.analyze_content(image);
        let target = self.calculate_dimensions(width, height);
        let resized = match resize_image(image, target.width, target.height) {
            Ok(resized) => resized,
            Err(e) => {
                return Err(e);
            },
        };
        let rgb = resized.to_rgb();
        Ok(Prepared { image: rgb, stats, scale: target.scale })
    }

    /// Takes the bytes of a file of the given format through decoding,
    /// analysis and resampling.
    ///
    /// An empty file is refused before it is decoded. Which other bytes
    /// decode, and to what, is the decoder's to say; whatever image it
    /// returns goes through `prepare_decoded`, so a result is what
    /// `Prepared::follows` describes for some decoded image.
    pub fn prepare(&self, bytes: &Vec<u8>, format: SourceFormat) -> (out: Result<
        Prepared,
        ProcessError,
    >)
        ensures
            bytes@.len() == 0 ==> out == Err::<Prepared, ProcessError>(ProcessError::EmptyFile),
            out matches Err(e) ==> (bytes@.len() > 0 ==> e == ProcessError::Decode || e
                == ProcessError::ZeroDimensions),
            out matches Ok(p) ==> bytes@.len() > 0 && exists|rgba: Seq<u8>, width: u32, height: u32|
                #[trigger] p.follows(self.spec_config().max_dim, rgba, width, height),
    {
        let image = match decode(bytes, format) {
            Ok(image) => image,
            Err(e) => {
                return Err(e);
            },
        };
        match self.prepare_decoded(&image) {
            Ok(p) => {
                assert(p.follows(
                    self.spec_config().max_dim,
                    image.samples(),
                    image.spec_width(),
                    image.spec_height(),
                ));
                Ok(p)
            },
            Err(e) => Err(e),
        }
    }

    /// What `plan_filters` decides.
    pub open spec fn filter_plan(
        config: ProcessConfig,
        entropy: u32,
        spread: u8,
        scale: Scale,
    ) -> FilterPlan {
        let features = features_of(entropy, spread);
        FilterPlan {
            features,
            denoise: denoise_plan(config.mode, features),
            sharpen: sharpen_plan(config.mode, features, scale),
        }
    }

    /// Classifies the content from its entropy, in units of
    /// `1 / ENTROPY_ONE` bit, and its luminance statistics, and decides the filters: a blur only in
    /// the `WeChat` mode, an unsharp mask always.
    pub fn plan_filters(&self, stats: &LumaStats, entropy: u32, scale: Scale) -> (plan:
        FilterPlan)
        requires
            scale.wf(),
        ensures
            plan == Self::filter_plan(
                self.spec_config(),
                entropy,
                stats.spread_spec(),
                scale,
            ),
            plan.sharpen.sigma.wf(),
            plan.denoise matches Some(sigma) ==> sigma.wf(),
    {
        let features = classify(entropy, stats.spread());
        FilterPlan {
            features,
            denoise: plan_denoise(self.config.mode, &features),
            sharpen: plan_sharpen(self.config.mode, &features, scale),
        }
    }

    /// Encodes an image within the configured size budget, in at most
    /// `MAX_ENCODES` runs of the encoder.
    pub fn encode_with_target_size(&self, image: &RgbBuffer) -> (out: Result<Encoded, ProcessError>)
        ensures
            out is Ok <==> encodable_size(image.spec_width(), image.spec_height()),
            out matches Err(e) ==> e == ProcessError::Encode,
            out matches Ok(encoded) ==> {
                let w = image.spec_width() as u16;
                let h = image.spec_height() as u16;
                &&& encoded.data@ == target_size_encoding(image.samples(), w, h, self.spec_config())
                &&& encoded.quality == target_size_quality(
                    image.samples(),
                    w,
                    h,
                    self.spec_config(),
                )
                &&& encoded.encodes == target_size_encodes(
                    image.samples(),
                    w,
                    h,
                    self.spec_config(),
                )
                &&& 1 <= encoded.encodes <= MAX_ENCODES
            },
    {
        encode_with_target_size(image, &self.config)
    }

    /// What `finish` returns for an image that can be encoded.
    pub open spec fn finished_bytes(
        config: ProcessConfig,
        rgb: Seq<u8>,
        width: u32,
        height: u32,
        source: Seq<u8>,
    ) -> Seq<u8> {
        exif_preserved(source, target_size_encoding(rgb, width as u16, height as u16, config))
    }

    /// Takes the filtered image to the bytes of the output file: encoded
    /// within the size budget, with the EXIF segment of the source file
    /// carried over where there is one.
    pub fn finish(&self, image: &RgbBuffer, source: &Vec<u8>) -> (out: Result<Vec<u8>, ProcessError>)
        ensures
            out is Ok <==> encodable_size(image.spec_width(), image.spec_height()),
            out matches Err(e) ==> e == ProcessError::Encode,
            out matches Ok(bytes) ==> bytes@ == Self::finished_bytes(
                self.spec_config(),
                image.samples(),
                image.spec_width(),
                image.spec_height(),
                source@,
            ),
    {
        match self.encode_with_target_size(image) {
            Ok(encoded) => Ok(preserve_exif(source, encoded.data)),
            Err(e) => Err(e),
        }
    }

    /// Where the output of the file `input_name` in `input_dir` goes.
    pub fn get_output_path(&self, input_dir: &str, input_name: &str) -> (target: OutputTarget)
        ensures
            target.model() == output_target(self.spec_config(), input_dir@, input_name@),
            !self.spec_config().overwrite ==> target.dir@ != input_dir@ || target.file_name@
                != input_name@,
    {
        get_output_path(&self.config, input_dir, input_name)
    }
}

} // verus!
