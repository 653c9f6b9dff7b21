use flatfile_pipeline::config::load_config;
use flatfile_pipeline::config::MissingSetting;

fn some(text: &str) -> Option<String> {
    Some(text.to_string())
}

#[test]
fn all_three_settings_make_a_config() {
    let config = load_config(some("us_stocks/trades"), some("parquet/trades"), some("bucket")).unwrap();
    assert_eq!(config.input_prefix, "us_stocks/trades");
    assert_eq!(config.output_prefix, "parquet/trades");
    assert_eq!(config.bucket_name, "bucket");
}

#[test]
fn the_first_missing_setting_is_reported() {
    assert_eq!(load_config(None, some("o"), some("b")).err(), Some(MissingSetting::InputPrefix));
    assert_eq!(load_config(some("i"), None, some("b")).err(), Some(MissingSetting::OutputPrefix));
    assert_eq!(load_config(some("i"), some("o"), None).err(), Some(MissingSetting::BucketName));
    assert_eq!(load_config(None, None, None).err(), Some(MissingSetting::InputPrefix));
    assert_eq!(load_config(some("i"), None, None).err(), Some(MissingSetting::OutputPrefix));
}

#[test]
fn an_empty_setting_is_present() {
    let config = load_config(some(""), some(""), some("")).unwrap();
    assert_eq!(config.input_prefix, "");
}
