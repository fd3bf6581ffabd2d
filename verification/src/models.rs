//! Plain records that cross the library's boundary.

use vstd::prelude::*;

verus! {

/// Credentials of both providers and the transcoding settings.
#[derive(Debug, Clone)]
pub struct Config {
    pub cloudinary_cloud_name: String,
    pub cloudinary_api_key: String,
    pub cloudinary_api_secret: String,
    pub r2_access_key_id: String,
    pub r2_secret_access_key: String,
    pub r2_bucket_name: String,
    pub r2_endpoint: String,
    pub r2_public_domain: String,
    pub settings_max_width: u32,
    pub settings_auto_webp: bool,
}

impl Default for Config {
    /// Empty credentials, a maximum width of 1600 and automatic conversion on.
    fn default() -> (config: Self)
        ensures
            config.cloudinary_cloud_name@ == Seq::<char>::empty(),
            config.cloudinary_api_key@ == Seq::<char>::empty(),
            config.cloudinary_api_secret@ == Seq::<char>::empty(),
            config.r2_access_key_id@ == Seq::<char>::empty(),
            config.r2_secret_access_key@ == Seq::<char>::empty(),
            config.r2_bucket_name@ == Seq::<char>::empty(),
            config.r2_endpoint@ == Seq::<char>::empty(),
            config.r2_public_domain@ == Seq::<char>::empty(),
            config.settings_max_width == 1600,
            config.settings_auto_webp,
    {
        Self {
            cloudinary_cloud_name: String::new(),
            cloudinary_api_key: String::new(),
            cloudinary_api_secret: String::new(),
            r2_access_key_id: String::new(),
            r2_secret_access_key: String::new(),
            r2_bucket_name: String::new(),
            r2_endpoint: String::new(),
            r2_public_domain: String::new(),
            settings_max_width: 1600,
            settings_auto_webp: true,
        }
    }
}

/// What a caller gets back after an image was transcoded and cached.
#[derive(Debug, Clone)]
pub struct ProcessedImageResult {
    pub preview_base64: String,
    pub size_info: String,
    pub temp_id: String,
}

/// The public address of an uploaded image.
#[derive(Debug, Clone)]
pub struct UploadResult {
    pub url: String,
}

/// One line of the upload history.
#[derive(Debug, Clone)]
pub struct HistoryItem {
    pub id: String,
    pub provider: String,
    pub original_name: String,
    pub url: String,
    pub created_at: i64,
    pub thumbnail_base64: String,
}

} // verus!
