//! The swap chain of a window.

use vstd::prelude::*;

verus! {

/// When a finished image is shown.
#[derive(Clone, Copy, Debug, PartialEq, Eq, Structural)]
pub enum PresentMode {
    Immediate,
    Mailbox,
    Fifo,
}

/// What a texture may be used for.
#[derive(Clone, Copy, Debug, PartialEq, Eq, Structural)]
pub struct TextureUsage {
    pub copy_src: bool,
    pub copy_dst: bool,
    pub sampled: bool,
    pub storage: bool,
    pub render_attachment: bool,
}

/// Everything that defines the swap chain but the texture format, which the
/// adapter picks.
#[derive(Clone, Copy, Debug, PartialEq, Eq, Structural)]
pub struct SwapChainDescriptor {
    pub usage: TextureUsage,
    pub width: u32,
    pub height: u32,
    pub present_mode: PresentMode,
}

impl SwapChainDescriptor {
    /// The swap chain of a window of `width` by `height` pixels: as large as
    /// the window, shown in step with the display, rendered into and copied
    /// from.
    pub open spec fn spec_sized_to(width: u32, height: u32) -> SwapChainDescriptor {
        SwapChainDescriptor {
            usage: TextureUsage {
                copy_src: true,
                copy_dst: false,
                sampled: false,
                storage: false,
                render_attachment: true,
            },
            width,
            height,
            present_mode: PresentMode::Fifo,
        }
    }

    /// The swap chain of a window of `width` by `height` pixels. It is made
    /// once at startup and anew whenever the target image cannot be acquired.
    #[verifier::when_used_as_spec(spec_sized_to)]
    pub fn sized_to(width: u32, height: u32) -> (descriptor: SwapChainDescriptor)
        ensures
            descriptor == SwapChainDescriptor::sized_to(width, height),
    {
        SwapChainDescriptor {
            usage: TextureUsage {
                copy_src: true,
                copy_dst: false,
                sampled: false,
                storage: false,
                render_attachment: true,
            },
            width,
            height,
            present_mode: PresentMode::Fifo,
        }
    }
}

} // verus!
