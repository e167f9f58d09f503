//! The render target of one frame: an image acquired from the surface.

use vstd::prelude::*;
use crate::graphics::surface_config::SurfaceConfigView;

verus! {

/// The mathematical content of a [`SurfaceRenderTarget`]: the image it owns
/// and the extent and format that the surface had when the image was
/// acquired.
pub struct FrameView<I> {
    pub image: I,
    pub width: nat,
    pub height: nat,
    pub format: wgpu::TextureFormat,
}

/// The frame that holds `image`, acquired from a surface configured as
/// `config`: it has the surface's size and format.
pub open spec fn frame_of<I>(config: SurfaceConfigView, image: I) -> FrameView<I> {
    FrameView { image, width: config.width, height: config.height, format: config.format }
}

/// One acquired presentable image, owned for the duration of one frame. `I`
/// is what the driver holds for the image: the surface texture and the view
/// over it. The target is neither copied nor cloned; presenting it gives the
/// image up.
#[derive(Debug)]
pub struct SurfaceRenderTarget<I> {
    image: I,
    width: u32,
    height: u32,
    format: wgpu::TextureFormat,
}

impl<I> View for SurfaceRenderTarget<I> {
    type V = FrameView<I>;

    closed spec fn view(&self) -> FrameView<I> {
        FrameView {
            image: self.image,
            width: self.width as nat,
            height: self.height as nat,
            format: self.format,
        }
    }
}

impl<I> SurfaceRenderTarget<I> {
    /// The target of an image of the given extent and format.
    pub(crate) fn new(image: I, width: u32, height: u32, format: wgpu::TextureFormat) -> (target:
        Self)
        ensures
            target@ == (FrameView {
                image,
                width: width as nat,
                height: height as nat,
                format,
            }),
    {
        SurfaceRenderTarget { image, width, height, format }
    }

    /// The image, for recording into it.
    pub fn image(&self) -> (image: &I)
        ensures
            *image == self@.image,
    {
        &self.image
    }

    /// The width of the image in pixels.
    pub fn width(&self) -> (width: u32)
        ensures
            width == self@.width,
    {
        self.width
    }

    /// The height of the image in pixels.
    pub fn height(&self) -> (height: u32)
        ensures
            height == self@.height,
    {
        self.height
    }

    /// The pixel format of the image.
    pub fn format(&self) -> (format: wgpu::TextureFormat)
        ensures
            format == self@.format,
    {
        self.format
    }

    /// Ends the frame: consumes the target and hands its image over for
    /// presentation. The image that comes out is the one that was acquired.
    pub fn finish(self) -> (image: I)
        ensures
            image == self@.image,
    {
        self.image
    }
}

} // verus!
