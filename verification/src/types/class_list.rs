//! Collections of CSS class names attached to output DOM nodes.
//!
//! A class list avoids allocation for the common static cases and only turns
//! into owned storage when it is mutated.

use crate::strutil::str_eq;
use vstd::prelude::*;

verus! {

/// A collection of CSS classes applied to one output node.
#[derive(Debug)]
pub enum ClassList {
    /// Owned storage for the list of classes.
    Owned(Vec<String>),
    /// A single static class stored without allocation.
    Static(&'static str),
    /// Several static classes stored without allocation.
    Const(&'static [&'static str]),
    /// The explicit empty list.
    Empty,
}

/// Growth headroom used when a list first becomes owned.
pub const CLASS_PREALLOCATE: usize = 4;

/// The views of a sequence of string slices.
pub open spec fn strs_view(s: Seq<&'static str>) -> Seq<Seq<char>> {
    s.map(|i: int, c: &'static str| c@)
}

/// `s` with its empty entries removed.
pub open spec fn keep_nonempty(s: Seq<Seq<char>>) -> Seq<Seq<char>>
    decreases s.len(),
{
    if s.len() == 0 {
        Seq::empty()
    } else if s[0].len() == 0 {
        keep_nonempty(s.skip(1))
    } else {
        seq![s[0]] + keep_nonempty(s.skip(1))
    }
}

impl ClassList {
    /// The classes this list holds, in order. A static class counts as one
    /// entry even when it is the empty string, mirroring how the list
    /// reports its length.
    pub open spec fn classes(&self) -> Seq<Seq<char>> {
        match self {
            ClassList::Owned(vec) => vec.deep_view(),
            ClassList::Static(class) => seq![class@],
            ClassList::Const(slice) => strs_view(slice@),
            ClassList::Empty => Seq::empty(),
        }
    }

    /// The classes that survive a conversion to owned storage: an empty
    /// static class is dropped, everything else is kept.
    pub open spec fn owned_form(&self) -> Seq<Seq<char>> {
        match self {
            ClassList::Owned(vec) => vec.deep_view(),
            ClassList::Static(class) => if class@.len() == 0 {
                Seq::empty()
            } else {
                seq![class@]
            },
            ClassList::Const(slice) => strs_view(slice@),
            ClassList::Empty => Seq::empty(),
        }
    }

    /// Returns `true` if the list contains no classes.
    pub fn is_empty(&self) -> (r: bool)
        ensures
            r == (self.classes().len() == 0),
    {
        match self {
            ClassList::Owned(vec) => vec.len() == 0,
            ClassList::Static(_) => false,
            ClassList::Const(slice) => slice.len() == 0,
            ClassList::Empty => true,
        }
    }

    /// Returns the number of classes in the list.
    pub fn len(&self) -> (r: usize)
        ensures
            r == self.classes().len(),
    {
        match self {
            ClassList::Owned(vec) => vec.len(),
            ClassList::Static(_) => 1,
            ClassList::Const(slice) => slice.len(),
            ClassList::Empty => 0,
        }
    }

    /// Returns the first class if present.
    pub fn first(&self) -> (r: Option<&str>)
        ensures
            match r {
                Some(s) => self.classes().len() > 0 && s@ == self.classes()[0],
                None => self.classes().len() == 0,
            },
    {
        match self {
            ClassList::Owned(vec) => {
                if vec.len() == 0 {
                    None
                } else {
                    Some(vec[0].as_str())
                }
            },
            ClassList::Static(class) => Some(*class),
            ClassList::Const(slice) => {
                if slice.len() == 0 {
                    None
                } else {
                    Some(slice[0])
                }
            },
            ClassList::Empty => None,
        }
    }

    /// The class reported for an index: owned and static-array storage are
    /// indexed, while a single static class answers for every index.
    pub open spec fn get_spec(&self, index: int) -> Option<Seq<char>> {
        match self {
            ClassList::Owned(vec) => if 0 <= index < vec@.len() {
                Some(vec@[index]@)
            } else {
                None
            },
            ClassList::Static(class) => Some(class@),
            ClassList::Const(slice) => if 0 <= index < slice@.len() {
                Some(slice@[index]@)
            } else {
                None
            },
            ClassList::Empty => None,
        }
    }

    /// Gets the class at an index if there is one.
    pub fn get(&self, index: usize) -> (r: Option<&str>)
        ensures
            r is Some <==> self.get_spec(index as int) is Some,
            match r {
                Some(s) => self.get_spec(index as int) == Some(s@),
                None => true,
            },
    {
        match self {
            ClassList::Owned(vec) => {
                if index < vec.len() {
                    Some(vec[index].as_str())
                } else {
                    None
                }
            },
            ClassList::Static(class) => Some(*class),
            ClassList::Const(slice) => {
                if index < slice.len() {
                    Some(slice[index])
                } else {
                    None
                }
            },
            ClassList::Empty => None,
        }
    }

    /// Gets a mutable reference to the class at an index, turning the list
    /// into owned storage first.
    pub fn get_mut(&mut self, index: usize) -> (r: Option<&mut String>)
        ensures
            (*final(self)) is Owned,
            index < old(self).owned_form().len() ==> r is Some,
            index >= old(self).owned_form().len() ==> r is None && final(self).classes() == old(
                self,
            ).owned_form(),
    {
        self.ensure_owned();
        match self {
            ClassList::Owned(vec) => {
                if index < vec.len() {
                    Some(vstd::std_specs::vec::vec_index_mut(vec, index))
                } else {
                    None
                }
            },
            _ => None,
        }
    }

    /// Returns `true` if the list contains the given class name.
    pub fn contains(&self, class: &str) -> (r: bool)
        ensures
            r == self.classes().contains(class@),
    {
        match self {
            ClassList::Owned(vec) => {
                let mut i: usize = 0;
                while i < vec.len()
                    invariant
                        i <= vec.len(),
                        self.classes() == vec.deep_view(),
                        forall|j: int| 0 <= j < i ==> #[trigger] vec.deep_view()[j] != class@,
                    decreases vec.len() - i,
                {
                    let hit = str_eq(vec[i].as_str(), class);
                    proof {
                        assert(vec.deep_view()[i as int] == vec@[i as int]@);
                    }
                    if hit {
                        proof {
                            assert(self.classes()[i as int] == class@);
                            assert(self.classes().contains(class@));
                        }
                        return true;
                    }
                    i = i + 1;
                }
                proof {
                    assert(forall|j: int|
                        0 <= j < self.classes().len() ==> self.classes()[j] != class@);
                }
                false
            },
            ClassList::Static(entry) => {
                let r = str_eq(*entry, class);
                proof {
                    if r {
                        assert(self.classes()[0] == class@);
                    } else {
                        assert(forall|j: int|
                            0 <= j < self.classes().len() ==> self.classes()[j] != class@);
                    }
                }
                r
            },
            ClassList::Const(entries) => {
                let mut i: usize = 0;
                while i < entries.len()
                    invariant
                        i <= entries.len(),
                        self.classes() == strs_view(entries@),
                        forall|j: int| 0 <= j < i ==> #[trigger] strs_view(entries@)[j] != class@,
                    decreases entries.len() - i,
                {
                    if str_eq(entries[i], class) {
                        proof {
                            assert(strs_view(entries@)[i as int] == entries@[i as int]@);
                            assert(self.classes()[i as int] == class@);
                            assert(self.classes().contains(class@));
                        }
                        return true;
                    }
                    proof {
                        assert(strs_view(entries@)[i as int] == entries@[i as int]@);
                    }
                    i = i + 1;
                }
                proof {
                    assert(forall|j: int|
                        0 <= j < self.classes().len() ==> self.classes()[j] != class@);
                }
                false
            },
            ClassList::Empty => false,
        }
    }

    /// Converts the list into owned storage if it is not owned already.
    fn ensure_owned(&mut self)
        ensures
            (*final(self)) is Owned,
            final(self).classes() == old(self).owned_form(),
    {
        match self {
            ClassList::Owned(_) => {
                proof {
                    assert(self.classes() =~= old(self).owned_form());
                }
            },
            _ => self.inner_owned(),
        }
    }

    /// The cold path of [`ClassList::ensure_owned`]: builds the owned vector.
    #[verifier::spinoff_prover]
    fn inner_owned(&mut self)
        requires
            !(*old(self) is Owned),
        ensures
            (*final(self)) is Owned,
            final(self).classes() == old(self).owned_form(),
    {
        let mut v: Vec<String> = Vec::with_capacity(CLASS_PREALLOCATE);
        match self {
            ClassList::Empty => {},
            ClassList::Static(class) => {
                if !class.is_empty() {
                    v.push(String::from_str(*class));
                }
            },
            ClassList::Const(slice) => {
                let mut i: usize = 0;
                while i < slice.len()
                    invariant
                        i <= slice.len(),
                        v@.len() == i,
                        forall|j: int| 0 <= j < i ==> #[trigger] v@[j]@ == slice@[j]@,
                    decreases slice.len() - i,
                {
                    v.push(String::from_str(slice[i]));
                    i = i + 1;
                }
                proof {
                    assert forall|j: int| 0 <= j < v.deep_view().len() implies v.deep_view()[j]
                        == strs_view(slice@)[j] by {
                        assert(v.deep_view()[j] == v@[j]@);
                        assert(strs_view(slice@)[j] == slice@[j]@);
                    }
                    assert(v.deep_view() =~= strs_view(slice@));
                }
            },
            ClassList::Owned(_) => {},
        }
        proof {
            assert(v.deep_view() =~= old(self).owned_form());
        }
        *self = ClassList::Owned(v);
    }

    /// Pushes a class onto the list, ignoring an empty entry.
    pub fn push(&mut self, class: String)
        ensures
            class@.len() == 0 ==> *final(self) == *old(self),
            class@.len() > 0 ==> (*final(self)) is Owned && final(self).classes() == old(
                self,
            ).owned_form().push(class@),
    {
        if class.as_str().is_empty() {
            return ;
        }
        self.ensure_owned();
        match self {
            ClassList::Owned(vec) => {
                vec.push(class);
                proof {
                    assert(self.classes() =~= old(self).owned_form().push(class@));
                }
            },
            _ => {
                proof {
                    assert(false);
                }
            },
        }
    }

    /// Inserts a class at a position, ignoring an empty entry.
    pub fn insert(&mut self, index: usize, class: String)
        requires
            class@.len() > 0 ==> index <= old(self).owned_form().len(),
        ensures
            class@.len() == 0 ==> *final(self) == *old(self),
            class@.len() > 0 ==> (*final(self)) is Owned && final(self).classes() == old(
                self,
            ).owned_form().insert(index as int, class@),
    {
        if class.as_str().is_empty() {
            return ;
        }
        self.ensure_owned();
        match self {
            ClassList::Owned(vec) => {
                vec.insert(index, class);
                proof {
                    assert(self.classes() =~= old(self).owned_form().insert(
                        index as int,
                        class@,
                    ));
                }
            },
            _ => {
                proof {
                    assert(false);
                }
            },
        }
    }

    /// Reserves capacity for additional classes, converting to owned storage
    /// when any capacity is asked for.
    pub fn reserve(&mut self, additional: usize)
        ensures
            additional == 0 ==> *final(self) == *old(self),
            additional > 0 ==> (*final(self)) is Owned && final(self).classes() == old(
                self,
            ).owned_form(),
    {
        if additional == 0 {
            return ;
        }
        self.ensure_owned();
        match self {
            ClassList::Owned(vec) => vec.reserve(additional),
            _ => {
                proof {
                    assert(false);
                }
            },
        }
    }

    /// Iterates over the classes of the list.
    pub fn iter<'a>(&'a self) -> (r: ClassListIter<'a>)
        ensures
            r.remaining() == match self {
                ClassList::Owned(_) => self.classes(),
                ClassList::Static(_) => keep_nonempty(self.classes()),
                ClassList::Const(_) => keep_nonempty(self.classes()),
                ClassList::Empty => Seq::<Seq<char>>::empty(),
            },
    {
        match self {
            ClassList::Owned(vec) => {
                let it = ClassListIter::Owned { entries: vec, index: 0 };
                proof {
                    assert(vec.deep_view().skip(0) =~= vec.deep_view());
                }
                it
            },
            ClassList::Static(class) => {
                if class.is_empty() {
                    let it = ClassListIter::Static(None);
                    proof {
                        assert(seq![class@].skip(1) =~= Seq::<Seq<char>>::empty());
                        assert(keep_nonempty(Seq::<Seq<char>>::empty()) =~= Seq::<
                            Seq<char>,
                        >::empty());
                        assert(keep_nonempty(self.classes()) =~= Seq::<Seq<char>>::empty());
                    }
                    it
                } else {
                    let it = ClassListIter::Static(Some(*class));
                    proof {
                        assert(seq![class@].skip(1) =~= Seq::<Seq<char>>::empty());
                        assert(keep_nonempty(Seq::<Seq<char>>::empty()) =~= Seq::<
                            Seq<char>,
                        >::empty());
                        assert(keep_nonempty(self.classes()) =~= seq![class@]);
                    }
                    it
                }
            },
            ClassList::Const(slice) => {
                let it = ClassListIter::Const { entries: slice, index: 0 };
                proof {
                    assert(strs_view(slice@).skip(0) =~= strs_view(slice@));
                }
                it
            },
            ClassList::Empty => ClassListIter::Empty,
        }
    }
}

/// Iterator over the class names of a [`ClassList`].
#[derive(Clone, Copy)]
pub enum ClassListIter<'a> {
    /// Iterator over owned class storage.
    Owned {
        /// The owned entries being walked.
        entries: &'a Vec<String>,
        /// The next position to yield.
        index: usize,
    },
    /// Iterator yielding at most a single static class.
    Static(Option<&'a str>),
    /// Iterator over a static array of classes.
    Const {
        /// The static entries being walked.
        entries: &'a [&'static str],
        /// The next position to consider.
        index: usize,
    },
    /// The empty iterator.
    Empty,
}

impl<'a> ClassListIter<'a> {
    /// The iterator is well-formed when its position lies inside its storage.
    pub open spec fn wf(&self) -> bool {
        match self {
            ClassListIter::Owned { entries, index } => *index <= entries@.len(),
            ClassListIter::Const { entries, index } => *index <= entries@.len(),
            _ => true,
        }
    }

    /// The classes this iterator has yet to yield. A static-array iterator
    /// skips empty entries.
    pub open spec fn remaining(&self) -> Seq<Seq<char>> {
        match self {
            ClassListIter::Owned { entries, index } => entries.deep_view().skip(*index as int),
            ClassListIter::Static(opt) => match opt {
                Some(s) => seq![s@],
                None => Seq::empty(),
            },
            ClassListIter::Const { entries, index } => keep_nonempty(
                strs_view(entries@).skip(*index as int),
            ),
            ClassListIter::Empty => Seq::empty(),
        }
    }

    /// Yields the next class, or `None` when the iterator is exhausted.
    pub fn next(&mut self) -> (r: Option<&'a str>)
        requires
            old(self).wf(),
        ensures
            final(self).wf(),
            match r {
                Some(s) => old(self).remaining().len() > 0 && s@ == old(self).remaining()[0]
                    && final(self).remaining() == old(self).remaining().skip(1),
                None => old(self).remaining().len() == 0 && final(self).remaining() == old(
                    self,
                ).remaining(),
            },
    {
        let cur = *self;
        match cur {
            ClassListIter::Owned { entries, index } => {
                if index < entries.len() {
                    let s = entries[index].as_str();
                    *self = ClassListIter::Owned { entries, index: index + 1 };
                    proof {
                        let es = entries.deep_view();
                        let i = index as int;
                        assert(es.skip(i)[0] == es[i]);
                        assert(es.skip(i + 1) =~= es.skip(i).skip(1));
                    }
                    Some(s)
                } else {
                    proof {
                        assert(entries.deep_view().skip(index as int) =~= Seq::<
                            Seq<char>,
                        >::empty());
                    }
                    None
                }
            },
            ClassListIter::Static(class) => {
                *self = ClassListIter::Static(None);
                class
            },
            ClassListIter::Const { entries, index } => {
                let mut i: usize = index;
                while i < entries.len() && entries[i].is_empty()
                    invariant
                        index <= i <= entries@.len(),
                        keep_nonempty(strs_view(entries@).skip(i as int)) == keep_nonempty(
                            strs_view(entries@).skip(index as int),
                        ),
                    decreases entries@.len() - i,
                {
                    proof {
                        let vs = strs_view(entries@);
                        let j = i as int;
                        assert(vs.skip(j)[0].len() == 0);
                        assert(vs.skip(j).skip(1) =~= vs.skip(j + 1));
                        assert(keep_nonempty(vs.skip(j)) == keep_nonempty(vs.skip(j + 1)));
                    }
                    i = i + 1;
                }
                if i < entries.len() {
                    let s = entries[i];
                    *self = ClassListIter::Const { entries, index: i + 1 };
                    proof {
                        let vs = strs_view(entries@);
                        let j = i as int;
                        assert(vs.skip(j)[0] == vs[j]);
                        assert(vs.skip(j).skip(1) =~= vs.skip(j + 1));
                        assert(keep_nonempty(vs.skip(j)) == seq![vs[j]] + keep_nonempty(
                            vs.skip(j + 1),
                        ));
                        assert((seq![vs[j]] + keep_nonempty(vs.skip(j + 1)))[0] == vs[j]);
                        assert((seq![vs[j]] + keep_nonempty(vs.skip(j + 1))).skip(1)
                            =~= keep_nonempty(vs.skip(j + 1)));
                    }
                    Some(s)
                } else {
                    *self = ClassListIter::Const { entries, index: i };
                    proof {
                        let vs = strs_view(entries@);
                        assert(vs.skip(vs.len() as int) =~= Seq::<Seq<char>>::empty());
                    }
                    None
                }
            },
            ClassListIter::Empty => None,
        }
    }
}

} // verus!
