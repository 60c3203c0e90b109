use vstd::prelude::*;

verus! {

/// Sole owner of one retained reference to a foreign object.
///
/// The wrapper may only be built from a retained-return foreign call, so the
/// single retained reference it stands for is held exactly once. Ownership
/// moves with the value; a caller that must hand the reference back to the
/// foreign runtime consumes the wrapper with [`Exclusive::into_handle`], so a
/// release can never be paired with the same wrapper twice.
pub struct Exclusive<H> {
    handle: H,
}

impl<H> Exclusive<H> {
    /// The wrapped handle, for contracts.
    pub closed spec fn handle_spec(&self) -> H {
        self.handle
    }

    /// Wraps a handle returned by a retained-return foreign call: the call
    /// already incremented the foreign reference count on the caller's
    /// behalf, and this wrapper becomes the one owner of that reference.
    pub fn from_retained(handle: H) -> (r: Self)
        ensures
            r.handle_spec() == handle,
    {
        Exclusive { handle }
    }

    /// Observes the wrapped handle without giving up ownership.
    pub fn handle(&self) -> (r: &H)
        ensures
            *r == self.handle_spec(),
    {
        &self.handle
    }

    /// Consumes the wrapper and surrenders its one retained reference to the
    /// caller, who becomes responsible for the matching release.
    pub fn into_handle(self) -> (r: H)
        ensures
            r == self.handle_spec(),
    {
        self.handle
    }
}

/// Co-owner of a reference-counted foreign object.
///
/// Several `Shared` wrappers may co-own one object; each stands for one
/// reference of the foreign count. Like [`Exclusive`], it may only be built
/// from a retained-return foreign call.
pub struct Shared<H> {
    handle: H,
}

impl<H> Shared<H> {
    /// The wrapped handle, for contracts.
    pub closed spec fn handle_spec(&self) -> H {
        self.handle
    }

    /// Wraps a handle returned by a retained-return foreign call; the new
    /// wrapper co-owns the object through that retained reference.
    pub fn from_retained(handle: H) -> (r: Self)
        ensures
            r.handle_spec() == handle,
    {
        Shared { handle }
    }

    /// Observes the wrapped handle without giving up ownership.
    pub fn handle(&self) -> (r: &H)
        ensures
            *r == self.handle_spec(),
    {
        &self.handle
    }

    /// Consumes the wrapper and surrenders its retained reference to the
    /// caller, who becomes responsible for the matching release.
    pub fn into_handle(self) -> (r: H)
        ensures
            r == self.handle_spec(),
    {
        self.handle
    }
}

impl<H: Copy> Shared<H> {
    /// Produces a further co-owner of the same object. The foreign runtime
    /// counts one more reference for the new wrapper, so each wrapper still
    /// stands for exactly one reference.
    pub fn share(&self) -> (r: Shared<H>)
        ensures
            r.handle_spec() == self.handle_spec(),
    {
        Shared { handle: self.handle }
    }
}

/// A weak observation of a foreign object that this bridge does not own.
///
/// The wrapper must never be the one to release: it was built from a
/// borrowed, not-retained handle, and its validity is tied to the real
/// owner's lifetime.
pub struct Unretained<H> {
    handle: H,
}

impl<H> Unretained<H> {
    /// The wrapped handle, for contracts.
    pub closed spec fn handle_spec(&self) -> H {
        self.handle
    }

    /// Wraps a handle obtained from a get-style foreign call that did not
    /// retain on the caller's behalf. No release may ever be paired with it.
    pub fn from_borrowed(handle: H) -> (r: Self)
        ensures
            r.handle_spec() == handle,
    {
        Unretained { handle }
    }

    /// Observes the wrapped handle.
    pub fn handle(&self) -> (r: &H)
        ensures
            *r == self.handle_spec(),
    {
        &self.handle
    }
}

} // verus!
