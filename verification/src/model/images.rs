//! Image-endpoint data structures: generation, edits and variations.

use vstd::prelude::*;

verus! {

/// Image quality.
#[derive(Debug, Clone, Copy, PartialEq, Eq)]
pub enum ImageQuality {
    /// Standard quality.
    Standard,
    /// High definition, with finer details.
    Hd,
}

impl Default for ImageQuality {
    /// Standard quality.
    fn default() -> (r: Self)
        ensures
            r is Standard,
    {
        ImageQuality::Standard
    }
}

/// Image response format.
#[derive(Debug, Clone, Copy, PartialEq, Eq)]
pub enum ImageResponseFormat {
    /// A URL to the generated image, valid for sixty minutes.
    Url,
    /// Base64-encoded JSON of the image.
    B64Json,
}

/// The wire name of an image response format.
pub open spec fn spec_image_format_value(f: ImageResponseFormat) -> Seq<char> {
    match f {
        ImageResponseFormat::Url => "url"@,
        ImageResponseFormat::B64Json => "b64_json"@,
    }
}

impl ImageResponseFormat {
    /// The value this format takes in a form field.
    pub fn form_value(&self) -> (r: &'static str)
        ensures
            r@ == spec_image_format_value(*self),
    {
        match self {
            ImageResponseFormat::Url => "url",
            ImageResponseFormat::B64Json => "b64_json",
        }
    }
}

impl Default for ImageResponseFormat {
    /// The URL format.
    fn default() -> (r: Self)
        ensures
            r is Url,
    {
        ImageResponseFormat::Url
    }
}

/// Image size.
#[derive(Debug, Clone, Copy, PartialEq, Eq)]
pub enum ImageSize {
    /// 256 by 256 pixels.
    Size256x256,
    /// 512 by 512 pixels.
    Size512x512,
    /// 1024 by 1024 pixels.
    Size1024x1024,
    /// 1792 by 1024 pixels.
    Size1792x1024,
    /// 1024 by 1792 pixels.
    Size1024x1792,
}

/// The wire name of an image size.
pub open spec fn spec_image_size_value(s: ImageSize) -> Seq<char> {
    match s {
        ImageSize::Size256x256 => "256x256"@,
        ImageSize::Size512x512 => "512x512"@,
        ImageSize::Size1024x1024 => "1024x1024"@,
        ImageSize::Size1792x1024 => "1792x1024"@,
        ImageSize::Size1024x1792 => "1024x1792"@,
    }
}

impl ImageSize {
    /// The value this size takes in a form field.
    pub fn form_value(&self) -> (r: &'static str)
        ensures
            r@ == spec_image_size_value(*self),
    {
        match self {
            ImageSize::Size256x256 => "256x256",
            ImageSize::Size512x512 => "512x512",
            ImageSize::Size1024x1024 => "1024x1024",
            ImageSize::Size1792x1024 => "1792x1024",
            ImageSize::Size1024x1792 => "1024x1792",
        }
    }
}

impl Default for ImageSize {
    /// 1024 by 1024 pixels.
    fn default() -> (r: Self)
        ensures
            r is Size1024x1024,
    {
        ImageSize::Size1024x1024
    }
}

/// Image style.
#[derive(Debug, Clone, Copy, PartialEq, Eq)]
pub enum ImageStyle {
    /// Hyper-real and dramatic images.
    Vivid,
    /// More natural, less hyper-real images.
    Natural,
}

impl Default for ImageStyle {
    /// The vivid style.
    fn default() -> (r: Self)
        ensures
            r is Vivid,
    {
        ImageStyle::Vivid
    }
}

/// Request to generate an image.
#[derive(Debug, Clone)]
pub struct CreateImageRequest {
    /// A text description of the desired image(s).
    pub prompt: String,
    /// The model to use for image generation.
    pub model: Option<String>,
    /// Number of images to generate.
    pub n: Option<i32>,
    /// Image quality.
    pub quality: Option<ImageQuality>,
    /// Format for the generated images.
    pub response_format: Option<ImageResponseFormat>,
    /// Size of the generated images.
    pub size: Option<ImageSize>,
    /// Style of the generated images.
    pub style: Option<ImageStyle>,
    /// A unique identifier representing the end user.
    pub user: Option<String>,
}

/// A single generated image.
#[derive(Debug, Clone)]
pub struct Image {
    /// Base64-encoded JSON of the image, when that format was requested.
    pub b64_json: Option<String>,
    /// URL of the generated image, when that format was requested.
    pub url: Option<String>,
    /// The revised prompt used to generate the image.
    pub revised_prompt: Option<String>,
}

/// Response from image generation.
#[derive(Debug, Clone)]
pub struct ImagesResponse {
    /// Unix timestamp of when the images were created.
    pub created: i64,
    /// The generated images.
    pub data: Vec<Image>,
}

/// Request for editing an image with a prompt.
#[derive(Debug, Clone)]
pub struct CreateImageEditRequest {
    /// A text description of the desired image(s).
    pub prompt: String,
    /// The model to use.
    pub model: Option<String>,
    /// Number of images to generate.
    pub n: Option<i32>,
    /// Size of the generated images.
    pub size: Option<ImageSize>,
    /// Format for the generated images.
    pub response_format: Option<ImageResponseFormat>,
    /// A unique identifier representing the end user.
    pub user: Option<String>,
}

/// Request for creating a variation of an image.
#[derive(Debug, Clone)]
pub struct CreateImageVariationRequest {
    /// The model to use.
    pub model: Option<String>,
    /// Number of images to generate.
    pub n: Option<i32>,
    /// Size of the generated images.
    pub size: Option<ImageSize>,
    /// Format for the generated images.
    pub response_format: Option<ImageResponseFormat>,
    /// A unique identifier representing the end user.
    pub user: Option<String>,
}

impl Default for CreateImageVariationRequest {
    /// A request with no option set.
    fn default() -> (r: Self)
        ensures
            r.model is None,
            r.n is None,
            r.size is None,
            r.response_format is None,
            r.user is None,
    {
        CreateImageVariationRequest {
            model: None,
            n: None,
            size: None,
            response_format: None,
            user: None,
        }
    }
}

} // verus!
