//! The resolved asset manifest of one page render.

use vstd::prelude::*;

verus! {

/// The views of a sequence of path strings.
pub open spec fn path_views(v: Seq<String>) -> Seq<Seq<char>> {
    Seq::new(v.len(), |i: int| v[i]@)
}

/// Appending a path appends its view.
pub proof fn lemma_path_views_push(v: Seq<String>, s: String)
    ensures
        path_views(v.push(s)) =~= path_views(v).push(s@),
{
}

/// Mathematical content of an asset manifest: the ordered script paths,
/// the body of the inline configuration script, and the ordered stylesheet
/// paths.
pub struct ManifestSpec {
    pub scripts: Seq<Seq<char>>,
    pub inline_script: Option<Seq<char>>,
    pub stylesheets: Seq<Seq<char>>,
}

impl ManifestSpec {
    /// The empty manifest: nothing is loaded and nothing is configured.
    pub open spec fn empty() -> ManifestSpec {
        ManifestSpec { scripts: Seq::empty(), inline_script: None, stylesheets: Seq::empty() }
    }
}

/// Ordered asset references and inline configuration produced for one page
/// render: script references in their load order, at most one inline
/// configuration script body to run after them, and stylesheet references.
/// Produced fresh per render and handed to the page-assembly collaborator.
pub struct AssetManifest {
    pub scripts: Vec<String>,
    pub inline_script: Option<String>,
    pub stylesheets: Vec<String>,
}

impl View for AssetManifest {
    type V = ManifestSpec;

    open spec fn view(&self) -> ManifestSpec {
        ManifestSpec {
            scripts: path_views(self.scripts@),
            inline_script: match self.inline_script {
                Some(s) => Some(s@),
                None => None,
            },
            stylesheets: path_views(self.stylesheets@),
        }
    }
}

impl AssetManifest {
    /// Returns the empty manifest.
    pub fn empty() -> (r: AssetManifest)
        ensures
            r@ == ManifestSpec::empty(),
    {
        let r = AssetManifest { scripts: Vec::new(), inline_script: None, stylesheets: Vec::new() };
        proof {
            assert(r@.scripts =~= Seq::<Seq<char>>::empty());
            assert(r@.stylesheets =~= Seq::<Seq<char>>::empty());
        }
        r
    }
}

} // verus!
