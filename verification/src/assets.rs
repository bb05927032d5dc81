//! The fixed set of asset paths the renderers load, each joined once from
//! the asset root. Resolving the root against the filesystem is the
//! embedder's business; this module only builds the paths.

use vstd::prelude::*;
use vstd::string::StringExecFns;

verus! {

/// The asset paths, one field per asset.
pub struct Assets {
    pub root: String,
    pub post_renderer_vert: String,
    pub post_renderer_frag: String,
    pub chunk_renderer_vert: String,
    pub chunk_renderer_frag: String,
    pub text_renderer_vert: String,
    pub text_renderer_frag: String,
    pub dirt_xyz_png: String,
    pub stone_xyz_png: String,
    pub font_padded_sdf_png: String,
}

/// The path of `name` under `root`.
pub open spec fn spec_joined(root: Seq<char>, name: Seq<char>) -> Seq<char> {
    root + "/"@ + name
}

/// Joins a file name onto the root directory.
fn join(root: &String, name: &str) -> (r: String)
    ensures
        r@ == spec_joined(root@, name@),
{
    root.clone().concat("/").concat(name)
}

impl Assets {
    /// Builds every asset path under the given root.
    pub fn new(root: String) -> (r: Assets)
        ensures
            r.root@ == root@,
            r.post_renderer_vert@ == spec_joined(root@, "post_renderer.vert"@),
            r.post_renderer_frag@ == spec_joined(root@, "post_renderer.frag"@),
            r.chunk_renderer_vert@ == spec_joined(root@, "chunk_renderer.vert"@),
            r.chunk_renderer_frag@ == spec_joined(root@, "chunk_renderer.frag"@),
            r.text_renderer_vert@ == spec_joined(root@, "text_renderer.vert"@),
            r.text_renderer_frag@ == spec_joined(root@, "text_renderer.frag"@),
            r.dirt_xyz_png@ == spec_joined(root@, "dirt_xyz.png"@),
            r.stone_xyz_png@ == spec_joined(root@, "stone_xyz.png"@),
            r.font_padded_sdf_png@ == spec_joined(root@, "font-padded-sdf.png"@),
    {
        let post_renderer_vert = join(&root, "post_renderer.vert");
        let post_renderer_frag = join(&root, "post_renderer.frag");
        let chunk_renderer_vert = join(&root, "chunk_renderer.vert");
        let chunk_renderer_frag = join(&root, "chunk_renderer.frag");
        let text_renderer_vert = join(&root, "text_renderer.vert");
        let text_renderer_frag = join(&root, "text_renderer.frag");
        let dirt_xyz_png = join(&root, "dirt_xyz.png");
        let stone_xyz_png = join(&root, "stone_xyz.png");
        let font_padded_sdf_png = join(&root, "font-padded-sdf.png");
        Assets {
            root,
            post_renderer_vert,
            post_renderer_frag,
            chunk_renderer_vert,
            chunk_renderer_frag,
            text_renderer_vert,
            text_renderer_frag,
            dirt_xyz_png,
            stone_xyz_png,
            font_padded_sdf_png,
        }
    }
}

} // verus!
