//! Filesystem paths as plain values.
//!
//! The supervisor never touches the filesystem itself; it only builds and
//! compares locations. A path is therefore modelled as the sequence of its
//! segments, and the two operations the candidate search needs — joining one
//! more segment, and stepping up to the parent directory — are ordinary
//! verified functions. The driver converts between this form and the host's
//! native paths.

use vstd::prelude::*;

verus! {

/// A filesystem location, as the sequence of its path segments, root first.
///
/// In spec contexts a path is viewed as a `Seq<Seq<char>>`: one sequence of
/// characters per segment.
#[derive(Debug, PartialEq, Eq)]
pub struct FsPath {
    pub segments: Vec<String>,
}

impl View for FsPath {
    type V = Seq<Seq<char>>;

    open spec fn view(&self) -> Seq<Seq<char>> {
        self.segments@.map_values(|s: String| s@)
    }
}

impl FsPath {
    /// The path one segment deeper: `self` joined with `segment`.
    pub fn joined(&self, segment: &String) -> (p: FsPath)
        ensures
            p@ == self@.push(segment@),
    {
        let mut segments = clone_segments(&self.segments);
        segments.push(segment.clone());
        let p = FsPath { segments };
        proof {
            assert(p@ =~= self@.push(segment@));
        }
        p
    }

    /// The parent directory: the path shorn of its last segment, or `None`
    /// where there is no segment to drop.
    pub fn parent(&self) -> (p: Option<FsPath>)
        ensures
            match p {
                Some(q) => self@.len() > 0 && q@ == self@.drop_last(),
                None => self@.len() == 0,
            },
    {
        if self.segments.len() == 0 {
            None
        } else {
            let mut segments = clone_segments(&self.segments);
            let _last = segments.pop();
            let q = FsPath { segments };
            proof {
                assert(q@ =~= self@.drop_last());
            }
            Some(q)
        }
    }
}

impl Clone for FsPath {
    fn clone(&self) -> (p: FsPath)
        ensures
            p@ == self@,
    {
        FsPath { segments: clone_segments(&self.segments) }
    }
}

/// An element-by-element copy of a vector of strings, preserving each
/// string's characters.
fn clone_segments(v: &Vec<String>) -> (r: Vec<String>)
    ensures
        r@.map_values(|s: String| s@) == v@.map_values(|s: String| s@),
        r@.len() == v@.len(),
{
    let mut r: Vec<String> = Vec::new();
    let mut i: usize = 0;
    while i < v.len()
        invariant
            i <= v@.len(),
            r@.len() == i,
            forall|j: int| 0 <= j < i ==> r@[j]@ == v@[j]@,
        decreases v@.len() - i,
    {
        r.push(v[i].clone());
        i = i + 1;
    }
    proof {
        assert(r@.map_values(|s: String| s@) =~= v@.map_values(|s: String| s@));
    }
    r
}

} // verus!
