use vstd::prelude::*;

verus! {

/// An absolute directory path, modeled as the sequence of path components
/// below the filesystem root; the root itself has no components.
#[derive(Clone)]
pub struct DirPath {
    pub components: Vec<String>,
}

impl View for DirPath {
    type V = Seq<Seq<char>>;

    open spec fn view(&self) -> Seq<Seq<char>> {
        self.components@.map_values(|c: String| c@)
    }
}

/// The text form of a non-root path: each component preceded by a slash.
pub open spec fn path_text(cs: Seq<Seq<char>>) -> Seq<char>
    decreases cs.len(),
{
    if cs.len() == 0 {
        Seq::empty()
    } else {
        path_text(cs.drop_last()) + seq!['/'] + cs.last()
    }
}

/// The text form of a path: `/` for the root, otherwise `path_text`.
pub open spec fn display_text(cs: Seq<Seq<char>>) -> Seq<char> {
    if cs.len() == 0 {
        seq!['/']
    } else {
        path_text(cs)
    }
}

impl DirPath {
    /// Whether this path is the filesystem root, the only path without a
    /// parent.
    pub open spec fn is_root(&self) -> bool {
        self@.len() == 0
    }

    /// The filesystem root.
    pub fn root() -> (r: DirPath)
        ensures
            r@ == Seq::<Seq<char>>::empty(),
    {
        let r = DirPath { components: Vec::new() };
        proof {
            assert(r@ =~= Seq::<Seq<char>>::empty());
        }
        r
    }

    /// A path assembled from its components, given root-first.
    pub fn new(components: Vec<String>) -> (r: DirPath)
        ensures
            r.components@ == components@,
    {
        DirPath { components }
    }

    pub fn has_parent(&self) -> (b: bool)
        ensures
            b == !self.is_root(),
    {
        self.components.len() > 0
    }

    /// Descend into the child directory called `name`.
    pub fn push_component(&mut self, name: String)
        ensures
            final(self)@ == old(self)@.push(name@),
    {
        self.components.push(name);
        proof {
            assert(self@ =~= old(self)@.push(name@));
        }
    }

    /// Drop the last component, moving to the parent directory.
    pub fn pop_component(&mut self)
        requires
            !old(self).is_root(),
        ensures
            final(self)@ == old(self)@.drop_last(),
    {
        self.components.pop();
        proof {
            assert(self@ =~= old(self)@.drop_last());
        }
    }

    /// The text form of the path: `/` for the root, otherwise the
    /// components each preceded by a slash.
    pub fn display_string(&self) -> (r: String)
        ensures
            r@ == display_text(self@),
    {
        proof {
            reveal_strlit("/");
        }
        if self.components.len() == 0 {
            let r = String::from_str("/");
            proof {
                assert(r@ =~= display_text(self@));
            }
            return r;
        }
        let mut s = String::new();
        let mut i: usize = 0;
        while i < self.components.len()
            invariant
                i <= self.components@.len(),
                s@ == path_text(self@.subrange(0, i as int)),
            decreases self.components@.len() - i,
        {
            let ghost prev: Seq<char> = s@;
            s.append("/");
            s.append(self.components[i].as_str());
            proof {
                reveal_strlit("/");
                let sub = self@.subrange(0, i + 1);
                assert(sub.drop_last() =~= self@.subrange(0, i as int));
                assert(sub.last() == self@[i as int]);
                assert("/"@ =~= seq!['/']);
                assert(s@ == path_text(sub.drop_last()) + seq!['/'] + sub.last());
            }
            i += 1;
        }
        proof {
            assert(self@.subrange(0, self@.len() as int) =~= self@);
        }
        s
    }
}

/// The parent directory of `current_dir`, or `current_dir` itself when it
/// is the filesystem root and has no parent.
pub fn parent_dir(current_dir: DirPath) -> (r: DirPath)
    ensures
        current_dir.is_root() ==> r@ == current_dir@,
        !current_dir.is_root() ==> r@ == current_dir@.drop_last(),
{
    let mut r = current_dir;
    if r.components.len() > 0 {
        r.pop_component();
    }
    r
}

} // verus!
