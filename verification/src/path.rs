//! Canonical absolute paths, held as the sequence of their components.
//!
//! A canonical path has no `.` or `..`, no empty component and no separator
//! inside a component. The filesystem root is the empty sequence. Containment
//! is then a prefix test on whole components.

use vstd::prelude::*;
use vstd::string::*;
use crate::text::{chars_of, texts};

verus! {

/// `s` can stand as one component of a canonical path.
pub open spec fn is_component(s: Seq<char>) -> bool {
    &&& s.len() > 0
    &&& !s.contains('/')
    &&& s != seq!['.']
    &&& s != seq!['.', '.']
}

/// Every element of `parts` is a component.
pub open spec fn all_components(parts: Seq<Seq<char>>) -> bool {
    forall|i: int| 0 <= i < parts.len() ==> is_component(#[trigger] parts[i])
}

/// Each component behind a separator, in order.
pub open spec fn joined(parts: Seq<Seq<char>>) -> Seq<char>
    decreases parts.len(),
{
    if parts.len() == 0 {
        Seq::<char>::empty()
    } else {
        joined(parts.drop_last()) + seq!['/'] + parts.last()
    }
}

/// How a path is written: `/` for the filesystem root, else each component
/// behind a separator.
pub open spec fn path_text(parts: Seq<Seq<char>>) -> Seq<char> {
    if parts.len() == 0 {
        seq!['/']
    } else {
        joined(parts)
    }
}

/// Whether `s` can stand as one component of a canonical path.
pub fn valid_component(s: &str) -> (ok: bool)
    ensures
        ok == is_component(s@),
{
    let chars = chars_of(s);
    let n = chars.len();
    if n == 0 {
        return false;
    }
    if n == 1 && chars[0] == '.' {
        assert(s@ =~= seq!['.']);
        return false;
    }
    if n == 2 && chars[0] == '.' && chars[1] == '.' {
        assert(s@ =~= seq!['.', '.']);
        return false;
    }
    let mut i: usize = 0;
    while i < n
        invariant
            i <= n,
            n == chars.len(),
            chars@ == s@,
            forall|j: int| 0 <= j < i ==> chars@[j] != '/',
        decreases n - i,
    {
        if chars[i] == '/' {
            return false;
        }
        i += 1;
    }
    true
}

/// A canonical absolute path.
#[derive(Debug, PartialEq, Eq)]
pub struct CanonicalPath {
    components: Vec<String>,
}

impl View for CanonicalPath {
    type V = Seq<Seq<char>>;

    closed spec fn view(&self) -> Seq<Seq<char>> {
        texts(self.components@)
    }
}

impl Clone for CanonicalPath {
    fn clone(&self) -> (copy: CanonicalPath)
        ensures
            copy@ == self@,
    {
        self.duplicate()
    }
}

impl CanonicalPath {
    #[verifier::type_invariant]
    closed spec fn well_formed(&self) -> bool {
        all_components(texts(self.components@))
    }

    /// Checks nothing and changes nothing: it states that every component of a
    /// path is one.
    pub fn components_hold(&self)
        ensures
            all_components(self@),
    {
        proof {
            use_type_invariant(self);
        }
    }

    /// The filesystem root.
    pub fn filesystem_root() -> (p: CanonicalPath)
        ensures
            p@ == Seq::<Seq<char>>::empty(),
    {
        let p = CanonicalPath { components: Vec::new() };
        p
    }

    /// The path made of `parts`, where each of them is a component.
    pub fn from_components(parts: Vec<String>) -> (made: Option<CanonicalPath>)
        ensures
            made is Some <==> all_components(texts(parts@)),
            made is Some ==> made->0@ == texts(parts@),
    {
        let mut i: usize = 0;
        while i < parts.len()
            invariant
                i <= parts.len(),
                forall|j: int| 0 <= j < i ==> is_component(#[trigger] texts(parts@)[j]),
            decreases parts.len() - i,
        {
            if !valid_component(parts[i].as_str()) {
                assert(!is_component(texts(parts@)[i as int]));
                return None;
            }
            i += 1;
        }
        Some(CanonicalPath { components: parts })
    }

    /// How many components the path has.
    pub fn depth(&self) -> (n: usize)
        ensures
            n == self@.len(),
    {
        self.components.len()
    }

    /// A copy of the path.
    pub fn duplicate(&self) -> (copy: CanonicalPath)
        ensures
            copy@ == self@,
    {
        proof {
            use_type_invariant(self);
        }
        let mut parts: Vec<String> = Vec::new();
        let mut i: usize = 0;
        while i < self.components.len()
            invariant
                i <= self.components.len(),
                parts.len() == i,
                forall|j: int| 0 <= j < i ==> parts@[j]@ == self.components@[j]@,
            decreases self.components.len() - i,
        {
            parts.push(self.components[i].clone());
            i += 1;
        }
        assert(texts(parts@) =~= texts(self.components@));
        CanonicalPath { components: parts }
    }

    /// The directory that holds this path: none for the filesystem root.
    pub fn parent(&self) -> (up: Option<CanonicalPath>)
        ensures
            up is Some <==> self@.len() > 0,
            up is Some ==> up->0@ == self@.drop_last(),
    {
        proof {
            use_type_invariant(self);
        }
        let n = self.components.len();
        if n == 0 {
            return None;
        }
        let mut parts: Vec<String> = Vec::new();
        let mut i: usize = 0;
        while i < n - 1
            invariant
                n == self.components.len(),
                n > 0,
                i <= n - 1,
                parts.len() == i,
                forall|j: int| 0 <= j < i ==> parts@[j]@ == self.components@[j]@,
            decreases n - 1 - i,
        {
            parts.push(self.components[i].clone());
            i += 1;
        }
        assert(texts(parts@) =~= texts(self.components@).drop_last());
        Some(CanonicalPath { components: parts })
    }

    /// The last component: none for the filesystem root.
    pub fn file_name(&self) -> (name: Option<String>)
        ensures
            name is Some <==> self@.len() > 0,
            name is Some ==> name->0@ == self@.last(),
    {
        let n = self.components.len();
        if n == 0 {
            None
        } else {
            Some(self.components[n - 1].clone())
        }
    }

    /// The path of the entry `name` in this directory, where `name` is a component.
    pub fn child(&self, name: &str) -> (down: Option<CanonicalPath>)
        ensures
            down is Some <==> is_component(name@),
            down is Some ==> down->0@ == self@.push(name@),
    {
        if !valid_component(name) {
            return None;
        }
        let copy = self.duplicate();
        proof {
            use_type_invariant(&copy);
        }
        let mut parts = copy.components;
        parts.push(String::from_str(name));
        assert(texts(parts@) =~= self@.push(name@));
        Some(CanonicalPath { components: parts })
    }

    /// Whether the two paths are the same.
    pub fn same_as(&self, other: &CanonicalPath) -> (same: bool)
        ensures
            same == (self@ == other@),
    {
        if self.components.len() != other.components.len() {
            assert(self@.len() != other@.len());
            return false;
        }
        let mut i: usize = 0;
        while i < self.components.len()
            invariant
                i <= self.components.len(),
                self.components.len() == other.components.len(),
                forall|j: int| 0 <= j < i ==> self@[j] == other@[j],
            decreases self.components.len() - i,
        {
            if self.components[i] != other.components[i] {
                assert(self@[i as int] != other@[i as int]);
                return false;
            }
            i += 1;
        }
        assert(self@ =~= other@);
        true
    }

    /// Whether this path is `root` or lies below it: whether the components of
    /// `root` stand, one for one, at the front of this path.
    pub fn is_within(&self, root: &CanonicalPath) -> (inside: bool)
        ensures
            inside == root@.is_prefix_of(self@),
    {
        if root.components.len() > self.components.len() {
            return false;
        }
        let mut i: usize = 0;
        while i < root.components.len()
            invariant
                i <= root.components.len(),
                root.components.len() <= self.components.len(),
                forall|j: int| 0 <= j < i ==> self@[j] == root@[j],
            decreases root.components.len() - i,
        {
            if self.components[i] != root.components[i] {
                assert(self@.subrange(0, root@.len() as int)[i as int] == self@[i as int]);
                return false;
            }
            i += 1;
        }
        true
    }

    /// The path as text: `/` for the filesystem root, else each component
    /// behind a separator.
    pub fn to_path_string(&self) -> (text: String)
        ensures
            text@ == path_text(self@),
    {
        proof {
            reveal_strlit("/");
        }
        let n = self.components.len();
        if n == 0 {
            let text = String::from_str("/");
            return text;
        }
        let mut text = String::new();
        let mut i: usize = 0;
        while i < n
            invariant
                n == self.components.len(),
                i <= n,
                "/"@ == seq!['/'],
                text@ == joined(self@.subrange(0, i as int)),
            decreases n - i,
        {
            text.append("/");
            text.append(self.components[i].as_str());
            proof {
                let before = self@.subrange(0, i as int);
                let after = self@.subrange(0, i + 1);
                assert(after.drop_last() =~= before);
            }
            i += 1;
        }
        assert(self@.subrange(0, n as int) =~= self@);
        text
    }
}

} // verus!
