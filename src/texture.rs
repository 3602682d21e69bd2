//! Texture lifecycle, independent of the graphics backend.
//!
//! A texture built from raw pixel data is uploaded when it is made, so it is
//! configured from the start. A texture built from a named image is neither loaded
//! nor configured when it is made; once the image has loaded, its first use uploads
//! the pixels and configures it. `configured` goes from false to true at most once and
//! never back.
use vstd::prelude::*;

verus! {

/// Where a texture's pixels come from.
pub enum TextureData {
    /// An image resource, by name.
    ImageData(String),
    /// Raw RGBA bytes of a `width` by `height` image.
    RawData(i32, i32, Vec<u8>),
}

/// What the backend does when a texture is put to use.
#[derive(Clone, Copy, PartialEq, Eq, Structural, Debug)]
pub enum TextureAction {
    /// Not loaded yet: leave the current binding alone.
    Skip,
    /// Loaded but never uploaded: upload the pixels, then bind.
    UploadAndBind,
    /// Already on the GPU: bind.
    Bind,
}

/// A texture of a backend whose GPU object is a `H`.
pub struct Texture<H> {
    data: TextureData,
    handle: H,
    loaded: bool,
    configured: bool,
}

impl<H> Texture<H> {
    #[verifier::type_invariant]
    spec fn wf(self) -> bool {
        self.configured ==> self.loaded
    }

    /// The pixel source.
    pub closed spec fn source(self) -> TextureData {
        self.data
    }

    /// The backend's GPU object.
    pub closed spec fn gpu_handle(self) -> H {
        self.handle
    }

    /// Whether the pixels are available to upload.
    pub closed spec fn is_loaded(self) -> bool {
        self.loaded
    }

    /// Whether the pixels have been uploaded to the GPU.
    pub closed spec fn is_configured(self) -> bool {
        self.configured
    }

    /// A texture made from raw RGBA bytes, already uploaded into `handle`.
    pub fn from_data(width: i32, height: i32, data: Vec<u8>, handle: H) -> (r: Self)
        ensures
            r.source() == TextureData::RawData(width, height, data),
            r.gpu_handle() == handle,
            r.is_loaded(),
            r.is_configured(),
    {
        Texture { data: TextureData::RawData(width, height, data), handle, loaded: true, configured: true }
    }

    /// A texture for the image resource `name`, whose loading has not finished.
    pub fn from_image(name: String, handle: H) -> (r: Self)
        ensures
            r.source() == TextureData::ImageData(name),
            r.gpu_handle() == handle,
            !r.is_loaded(),
            !r.is_configured(),
    {
        Texture { data: TextureData::ImageData(name), handle, loaded: false, configured: false }
    }

    /// Records that the image has finished loading.
    pub fn finish_loading(&mut self)
        ensures
            final(self).is_loaded(),
            final(self).is_configured() == old(self).is_configured(),
            final(self).source() == old(self).source(),
            final(self).gpu_handle() == old(self).gpu_handle(),
    {
        self.loaded = true;
    }

    /// Decides what putting the texture to use takes, and records an upload.
    /// Before loading this is a no-op that may be repeated freely.
    pub fn use_texture(&mut self) -> (r: TextureAction)
        ensures
            !old(self).is_loaded() ==> r == TextureAction::Skip && *final(self) == *old(self),
            old(self).is_loaded() && !old(self).is_configured() ==> r == TextureAction::UploadAndBind,
            old(self).is_configured() ==> r == TextureAction::Bind,
            final(self).is_configured() == old(self).is_loaded(),
            old(self).is_configured() ==> final(self).is_configured(),
            final(self).is_loaded() == old(self).is_loaded(),
            final(self).source() == old(self).source(),
            final(self).gpu_handle() == old(self).gpu_handle(),
    {
        proof {
            use_type_invariant(&*self);
        }
        if !self.loaded {
            TextureAction::Skip
        } else if !self.configured {
            self.configured = true;
            TextureAction::UploadAndBind
        } else {
            TextureAction::Bind
        }
    }

    /// Whether the pixels are available to upload.
    pub fn loaded(&self) -> (r: bool)
        ensures
            r == self.is_loaded(),
    {
        self.loaded
    }

    /// Whether the pixels have been uploaded to the GPU.
    pub fn configured(&self) -> (r: bool)
        ensures
            r == self.is_configured(),
    {
        self.configured
    }

    /// The pixel source.
    pub fn data(&self) -> (r: &TextureData)
        ensures
            *r == self.source(),
    {
        &self.data
    }

    /// The backend's GPU object.
    pub fn handle(&self) -> (r: &H)
        ensures
            *r == self.gpu_handle(),
    {
        &self.handle
    }
}

} // verus!
