//! Path values: a base root plus appended path segments.
//!
//! A computed directory is a value object: the raw root string a resolver
//! started from (an environment-variable value, a home directory, or a
//! hard-coded fallback) together with the path components appended to it, in
//! order.  Segments are kept as distinct components, never string-concatenated,
//! so a segment containing separator-like characters is still one atomic name.

use vstd::prelude::*;

verus! {

/// The mathematical model of a path value: the root as a character
/// sequence and the appended segments as a sequence of character sequences.
#[verifier::ext_equal]
pub ghost struct PathModel {
    pub root: Seq<char>,
    pub segments: Seq<Seq<char>>,
}

/// A computed path: a raw base root plus the path components appended to it.
#[derive(Debug, Clone, PartialEq, Eq)]
pub struct Dir {
    /// The raw base string the path starts from.
    pub root: String,
    /// The components appended under the root, in order.
    pub segments: Vec<String>,
}

impl View for Dir {
    type V = PathModel;

    open spec fn view(&self) -> PathModel {
        PathModel { root: self.root@, segments: self.segments.deep_view() }
    }
}

/// The model of a path made of a bare root with no appended segments.
pub open spec fn spec_root_only(root: Seq<char>) -> PathModel {
    PathModel { root: root, segments: Seq::empty() }
}

/// Appending one segment to a path.
pub open spec fn spec_join(p: PathModel, seg: Seq<char>) -> PathModel {
    PathModel { root: p.root, segments: p.segments.push(seg) }
}

/// `child` lies strictly below `base`: same root, all of `base`'s segments
/// in place, and at least one segment more.
pub open spec fn strictly_under(child: PathModel, base: PathModel) -> bool {
    &&& child.root == base.root
    &&& base.segments.is_prefix_of(child.segments)
    &&& child.segments.len() > base.segments.len()
}

impl Dir {
    /// A path consisting of the given root and nothing under it.
    pub fn from_root(root: String) -> (r: Dir)
        ensures
            r@ == spec_root_only(root@),
    {
        let r = Dir { root, segments: Vec::new() };
        proof {
            assert(r@ =~~= spec_root_only(r.root@));
        }
        r
    }

    /// Appends `name` as one further path component.
    pub fn join(self, name: &str) -> (r: Dir)
        ensures
            r@ == spec_join(self@, name@),
    {
        let ghost m = self@;
        let mut r = self;
        r.segments.push(name.to_owned());
        proof {
            assert(r@ =~~= spec_join(m, name@));
        }
        r
    }
}

} // verus!
