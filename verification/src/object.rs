//! Reference counting: the count that tells how many holders an object has,
//! and when the object is to be destroyed.
//!
//! A new object has one reference. That reference may be floating: it
//! belongs to nobody yet, and the first holder takes it over instead of
//! adding a reference of its own.

use vstd::prelude::*;

verus! {

/// The reference count of an object.
#[derive(Clone, Copy, Debug, PartialEq, Eq)]
pub struct SquashObject {
    /// The number of references to the object.
    pub ref_count: u32,
    /// Whether the one reference of the object is floating.
    pub is_floating: bool,
}

impl SquashObject {
    /// Whether the count is one that an object in use can have: there is at
    /// least one reference, and if it is floating it is the only one.
    pub open spec fn wf(&self) -> bool {
        &&& self.ref_count >= 1
        &&& self.is_floating ==> self.ref_count == 1
    }

    /// The count of a new object: one reference, floating if `is_floating`
    /// is set.
    pub fn init(is_floating: bool) -> (object: SquashObject)
        ensures
            object.wf(),
            object.ref_count == 1,
            object.is_floating == is_floating,
    {
        SquashObject { ref_count: 1, is_floating }
    }

    /// Takes a reference to the object: takes over the floating reference
    /// if there is one, and adds a reference otherwise. Returns false, and
    /// changes nothing, if the count cannot grow.
    pub fn reference(&mut self) -> (taken: bool)
        requires
            old(self).wf(),
        ensures
            final(self).wf(),
            taken ==> !final(self).is_floating,
            taken <==> old(self).is_floating || old(self).ref_count < u32::MAX,
            taken ==> final(self).ref_count == if old(self).is_floating {
                1
            } else {
                old(self).ref_count + 1
            },
            !taken ==> *final(self) == *old(self),
    {
        if self.is_floating {
            self.is_floating = false;
            true
        } else if self.ref_count < u32::MAX {
            self.ref_count = self.ref_count + 1;
            true
        } else {
            false
        }
    }

    /// Takes over the floating reference if there is one. Unlike
    /// `reference` it never adds a reference. Returns whether there was a
    /// floating reference.
    pub fn ref_sink(&mut self) -> (sunk: bool)
        requires
            old(self).wf(),
        ensures
            final(self).wf(),
            sunk == old(self).is_floating,
            !final(self).is_floating,
            final(self).ref_count == old(self).ref_count,
    {
        let sunk: bool = self.is_floating;
        self.is_floating = false;
        sunk
    }

    /// Gives up a reference to the object. Returns the count that is left,
    /// or nothing if that was the last reference: the object is then to be
    /// destroyed.
    pub fn unref(self) -> (left: Option<SquashObject>)
        requires
            self.wf(),
        ensures
            match left {
                Some(object) => {
                    &&& self.ref_count > 1
                    &&& object.wf()
                    &&& object.ref_count == self.ref_count - 1
                    &&& !object.is_floating
                },
                None => self.ref_count == 1,
            },
    {
        if self.ref_count > 1 {
            Some(SquashObject { ref_count: self.ref_count - 1, is_floating: false })
        } else {
            None
        }
    }

    /// The number of references to the object.
    pub fn get_ref_count(&self) -> (count: u32)
        ensures
            count == self.ref_count,
    {
        self.ref_count
    }
}

} // verus!
