//! The settings of one run.

use vstd::prelude::*;

verus! {

/// The three settings that name where the pipeline reads and where it publishes.
pub struct Config {
    pub input_prefix: String,
    pub output_prefix: String,
    pub bucket_name: String,
}

/// A required setting that was not supplied.
#[derive(Clone, Copy, Debug, PartialEq, Eq, Structural)]
pub enum MissingSetting {
    InputPrefix,
    OutputPrefix,
    BucketName,
}

/// The setting that `load_config` reports for three values as looked up:
/// the first one absent, in the order input prefix, output prefix, bucket name.
pub open spec fn first_missing(
    input_prefix: Option<String>,
    output_prefix: Option<String>,
    bucket_name: Option<String>,
) -> Option<MissingSetting> {
    if input_prefix is None {
        Some(MissingSetting::InputPrefix)
    } else if output_prefix is None {
        Some(MissingSetting::OutputPrefix)
    } else if bucket_name is None {
        Some(MissingSetting::BucketName)
    } else {
        None
    }
}

/// Assembles the configuration from the three settings as the caller looked
/// them up. Every setting is required: the first absent one is the error.
pub fn load_config(
    input_prefix: Option<String>,
    output_prefix: Option<String>,
    bucket_name: Option<String>,
) -> (r: Result<Config, MissingSetting>)
    ensures
        match first_missing(input_prefix, output_prefix, bucket_name) {
            Some(missing) => r == Err::<Config, MissingSetting>(missing),
            None => r matches Ok(cfg) && cfg.input_prefix == input_prefix->0
                && cfg.output_prefix == output_prefix->0 && cfg.bucket_name == bucket_name->0,
        },
{
    let input_prefix = match input_prefix {
        Some(value) => value,
        None => return Err(MissingSetting::InputPrefix),
    };
    let output_prefix = match output_prefix {
        Some(value) => value,
        None => return Err(MissingSetting::OutputPrefix),
    };
    let bucket_name = match bucket_name {
        Some(value) => value,
        None => return Err(MissingSetting::BucketName),
    };
    Ok(Config { input_prefix, output_prefix, bucket_name })
}

} // verus!
