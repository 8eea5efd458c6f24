//! Render targets.  The pixel loops, the floating-point coordinate mapping
//! and the actual file or window output live with the unverified callers;
//! the types here carry what those callers are configured with.

use vstd::prelude::*;

verus! {

/// Renders by evaluating the tree on the CPU, one pixel at a time.
pub struct CpuRenderer;

/// Renders by translating the tree to GLSL for GPU-side evaluation.
pub struct GpuRenderer {}

/// A failure reported by a render backend.
#[derive(Debug)]
pub enum RenderError {
    GpuError(String),
    CpuError(String),
}

/// Renders the tree once into an image file.
pub struct FileRenderer {
    output_path: String,
}

impl FileRenderer {
    /// The path the rendered image will be written to.
    pub closed spec fn spec_path(&self) -> Seq<char> {
        self.output_path@
    }

    pub fn new(output_path: String) -> (r: Self)
        ensures
            r.spec_path() == output_path@,
    {
        FileRenderer { output_path }
    }

    /// The configured output path.
    pub fn path(&self) -> (p: &String)
        ensures
            p@ == self.spec_path(),
    {
        &self.output_path
    }
}

/// Renders the tree live into a window, re-evaluated every frame on the GPU.
pub struct WindowRenderer {}

impl WindowRenderer {
    pub fn new() -> (r: Self)
        ensures
            r == (WindowRenderer {  }),
    {
        WindowRenderer {  }
    }
}

impl Default for WindowRenderer {
    fn default() -> (r: Self)
        ensures
            r == (WindowRenderer {  }),
    {
        WindowRenderer::new()
    }
}

} // verus!
