//! Keeps account of the handles that have been obtained and are still to be released.
use vstd::prelude::*;
use crate::error::{Error, WrapperErrorKind};
use crate::handles::ObjectHandle;

verus! {

/// What is owed to a handle once it is no longer needed.
#[derive(Clone, Copy, Debug, PartialEq, Eq, Hash, Structural)]
pub enum HandleDisposition {
    /// A transient object or a session: the device must be told to discard it.
    MustFlush,
    /// A reference to an object that persists: the reference must be closed.
    MustClose,
    /// A permanent handle: it is never released.
    Permanent,
}

/// A handle with its disposition.
#[derive(Clone, Copy, Debug, PartialEq, Eq, Hash, Structural)]
pub struct TrackedHandle {
    pub handle: ObjectHandle,
    pub disposition: HandleDisposition,
}

/// Whether the entry at `index` of `entries` is that of `handle`.
pub open spec fn is_entry_of(
    entries: Seq<TrackedHandle>,
    handle: ObjectHandle,
    index: int,
) -> bool {
    0 <= index < entries.len() && entries[index].handle == handle
}

/// The disposition that `handle` is registered with, if it is registered.
pub open spec fn disposition_of(entries: Seq<TrackedHandle>, handle: ObjectHandle) -> Option<
    HandleDisposition,
> {
    if exists|index: int| is_entry_of(entries, handle, index) {
        Some(entries[choose|index: int| is_entry_of(entries, handle, index)].disposition)
    } else {
        None
    }
}

/// No handle is registered twice.
pub open spec fn distinct_handles(entries: Seq<TrackedHandle>) -> bool {
    forall|i: int, j: int|
        0 <= i < entries.len() && 0 <= j < entries.len() && i != j ==> entries[i].handle
            != entries[j].handle
}

/// The handles of `entries` that are registered with `disposition`, in the
/// order in which they were registered.
pub open spec fn handles_with(entries: Seq<TrackedHandle>, disposition: HandleDisposition) -> Seq<
    ObjectHandle,
>
    decreases entries.len(),
{
    if entries.len() == 0 {
        Seq::empty()
    } else {
        let rest = handles_with(entries.drop_last(), disposition);
        if entries.last().disposition == disposition {
            rest.push(entries.last().handle)
        } else {
            rest
        }
    }
}

/// `entries` without the entry of `handle`, which is registered.
pub open spec fn without(entries: Seq<TrackedHandle>, handle: ObjectHandle) -> Seq<TrackedHandle> {
    entries.remove(choose|index: int| is_entry_of(entries, handle, index))
}

/// Why the release of `handle` in the way of `disposition` cannot be
/// recorded, if it cannot: the handle is not registered, or it is
/// registered with another disposition. Either is an `InvalidParam`.
pub open spec fn release_error(
    entries: Seq<TrackedHandle>,
    handle: ObjectHandle,
    disposition: HandleDisposition,
) -> Option<WrapperErrorKind> {
    if disposition_of(entries, handle) == Some(disposition) {
        None
    } else {
        Some(WrapperErrorKind::InvalidParam)
    }
}

/// Whether a handle is registered that is still to be flushed or closed.
pub open spec fn any_open(entries: Seq<TrackedHandle>) -> bool {
    exists|index: int|
        0 <= index < entries.len() && (#[trigger] entries[index]).disposition
            != HandleDisposition::Permanent
}

/// Why `handle` cannot be registered with `disposition`, if it cannot: it
/// stands for no resource, which is an `InvalidParam`, or it is registered
/// with another disposition already, which is an `InconsistentParams`.
pub open spec fn register_error(
    entries: Seq<TrackedHandle>,
    handle: ObjectHandle,
    disposition: HandleDisposition,
) -> Option<WrapperErrorKind> {
    if handle.is_placeholder() {
        Some(WrapperErrorKind::InvalidParam)
    } else if disposition_of(entries, handle) is Some && disposition_of(entries, handle) != Some(
        disposition,
    ) {
        Some(WrapperErrorKind::InconsistentParams)
    } else {
        None
    }
}

/// The entries after `handle` has been registered with `disposition`: the
/// same as before where it was registered already, and one more otherwise.
pub open spec fn registered(
    entries: Seq<TrackedHandle>,
    handle: ObjectHandle,
    disposition: HandleDisposition,
) -> Seq<TrackedHandle> {
    if disposition_of(entries, handle) is Some {
        entries
    } else {
        entries.push(TrackedHandle { handle, disposition })
    }
}

/// Where no handle is registered twice, a handle has the disposition of the
/// entry that it is found in.
pub proof fn lemma_disposition_of(entries: Seq<TrackedHandle>, handle: ObjectHandle, index: int)
    requires
        distinct_handles(entries),
        is_entry_of(entries, handle, index),
    ensures
        disposition_of(entries, handle) == Some(entries[index].disposition),
{
}

/// The handles with a disposition are exactly the registered handles that
/// have it, each once.
pub proof fn lemma_handles_with(entries: Seq<TrackedHandle>, disposition: HandleDisposition)
    requires
        distinct_handles(entries),
    ensures
        handles_with(entries, disposition).no_duplicates(),
        forall|handle: ObjectHandle|
            handles_with(entries, disposition).contains(handle) <==> disposition_of(
                entries,
                handle,
            ) == Some(disposition),
    decreases entries.len(),
{
    let found = handles_with(entries, disposition);
    if entries.len() == 0 {
        assert forall|handle: ObjectHandle| !found.contains(handle) by {}
    } else {
        let front = entries.drop_last();
        let last = entries.last();
        let rest = handles_with(front, disposition);
        lemma_handles_with(front, disposition);
        assert forall|handle: ObjectHandle|
            found.contains(handle) <==> disposition_of(entries, handle) == Some(disposition) by {
            assert(rest.contains(handle) <==> disposition_of(front, handle) == Some(disposition));
            if found.contains(handle) {
                let k = choose|k: int| 0 <= k < found.len() && found[k] == handle;
                if last.disposition == disposition && k == rest.len() {
                    lemma_disposition_of(entries, handle, entries.len() - 1);
                } else {
                    assert(rest[k] == handle);
                    assert(rest.contains(handle));
                    assert(disposition_of(front, handle) is Some);
                    let index = choose|index: int| is_entry_of(front, handle, index);
                    lemma_disposition_of(front, handle, index);
                    assert(is_entry_of(entries, handle, index));
                    lemma_disposition_of(entries, handle, index);
                }
            }
            if disposition_of(entries, handle) == Some(disposition) {
                let index = choose|index: int| is_entry_of(entries, handle, index);
                lemma_disposition_of(entries, handle, index);
                if index == entries.len() - 1 {
                    assert(found[rest.len() as int] == handle);
                } else {
                    assert(is_entry_of(front, handle, index));
                    lemma_disposition_of(front, handle, index);
                    assert(rest.contains(handle));
                    let k = choose|k: int| 0 <= k < rest.len() && rest[k] == handle;
                    assert(found[k] == handle);
                }
            }
        }
        if last.disposition == disposition {
            assert(!rest.contains(last.handle)) by {
                assert(rest.contains(last.handle) <==> disposition_of(front, last.handle) == Some(
                    disposition,
                ));
                if rest.contains(last.handle) {
                    assert(disposition_of(front, last.handle) is Some);
                    let index = choose|index: int| is_entry_of(front, last.handle, index);
                    assert(entries[index].handle == entries[entries.len() - 1].handle);
                }
            }
        }
    }
}

/// To remove the entry of a handle unregisters that handle and leaves the
/// other handles as they are registered.
pub proof fn lemma_without(entries: Seq<TrackedHandle>, handle: ObjectHandle)
    requires
        distinct_handles(entries),
        disposition_of(entries, handle) is Some,
    ensures
        distinct_handles(without(entries, handle)),
        without(entries, handle).len() == entries.len() - 1,
        disposition_of(without(entries, handle), handle) is None,
        forall|other: ObjectHandle|
            other != handle ==> disposition_of(without(entries, handle), other) == disposition_of(
                entries,
                other,
            ),
{
    let index = choose|index: int| is_entry_of(entries, handle, index);
    let left = without(entries, handle);
    assert forall|i: int, j: int|
        0 <= i < left.len() && 0 <= j < left.len() && i != j implies left[i].handle
        != left[j].handle by {
        let a = if i < index { i } else { i + 1 };
        let b = if j < index { j } else { j + 1 };
        assert(entries[a].handle != entries[b].handle);
    }
    assert forall|k: int| !is_entry_of(left, handle, k) by {
        if 0 <= k < left.len() {
            let a = if k < index { k } else { k + 1 };
            assert(entries[a].handle != entries[index].handle);
        }
    }
    assert forall|other: ObjectHandle| other != handle implies disposition_of(left, other)
        == disposition_of(entries, other) by {
        if exists|k: int| is_entry_of(entries, other, k) {
            let k = choose|k: int| is_entry_of(entries, other, k);
            let a = if k < index { k } else { k - 1 };
            assert(is_entry_of(left, other, a));
            lemma_disposition_of(left, other, a);
            lemma_disposition_of(entries, other, k);
        } else {
            assert forall|k: int| !is_entry_of(left, other, k) by {
                if 0 <= k < left.len() {
                    let a = if k < index { k } else { k + 1 };
                    assert(!is_entry_of(entries, other, a));
                }
            }
        }
    }
}

/// To register a handle leaves no handle registered twice, registers that
/// handle as asked, and leaves the other handles as they are registered.
pub proof fn lemma_registered(
    handles: Seq<TrackedHandle>,
    handle: ObjectHandle,
    disposition: HandleDisposition,
)
    requires
        distinct_handles(handles),
        register_error(handles, handle, disposition) is None,
    ensures
        distinct_handles(registered(handles, handle, disposition)),
        disposition_of(registered(handles, handle, disposition), handle) == Some(disposition),
        forall|other: ObjectHandle|
            other != handle ==> disposition_of(registered(handles, handle, disposition), other)
                == disposition_of(handles, other),
{
    let after = registered(handles, handle, disposition);
    if disposition_of(handles, handle) is None {
        assert forall|i: int, j: int|
            0 <= i < after.len() && 0 <= j < after.len() && i != j implies after[i].handle
            != after[j].handle by {
            if i == handles.len() {
                assert(!is_entry_of(handles, handle, j));
            } else if j == handles.len() {
                assert(!is_entry_of(handles, handle, i));
            } else {
                assert(handles[i].handle != handles[j].handle);
            }
        }
        lemma_disposition_of(after, handle, handles.len() as int);
        assert forall|other: ObjectHandle| other != handle implies disposition_of(after, other)
            == disposition_of(handles, other) by {
            if exists|k: int| is_entry_of(handles, other, k) {
                let k = choose|k: int| is_entry_of(handles, other, k);
                assert(is_entry_of(after, other, k));
                lemma_disposition_of(after, other, k);
                lemma_disposition_of(handles, other, k);
            } else {
                assert forall|k: int| !is_entry_of(after, other, k) by {
                    if 0 <= k < handles.len() {
                        assert(!is_entry_of(handles, other, k));
                    }
                }
            }
        }
    }
}

/// The account of the handles that have been obtained from the device and
/// have not been released yet, each with what is owed to it.
#[derive(Debug)]
pub struct HandleManager {
    open_handles: Vec<TrackedHandle>,
}

impl View for HandleManager {
    type V = Seq<TrackedHandle>;

    /// The registered handles, in the order in which they were registered.
    closed spec fn view(&self) -> Seq<TrackedHandle> {
        self.open_handles@
    }
}

impl HandleManager {
    /// Whether the value is one that the functions of this type produce.
    #[verifier::type_invariant]
    pub closed spec fn wf(self) -> bool {
        distinct_handles(self.open_handles@)
    }

    /// In the account of a manager no handle occurs twice.
    pub proof fn lemma_wf(self)
        requires
            self.wf(),
        ensures
            distinct_handles(self@),
    {
    }

    /// A manager without handles.
    pub fn new() -> (manager: HandleManager)
        ensures
            manager.wf(),
            manager@ == Seq::<TrackedHandle>::empty(),
    {
        HandleManager { open_handles: Vec::new() }
    }

    /// Finds the entry of `handle`.
    fn find(&self, handle: ObjectHandle) -> (found: Option<usize>)
        ensures
            match found {
                Some(index) => is_entry_of(self@, handle, index as int),
                None => forall|index: int| !is_entry_of(self@, handle, index),
            },
    {
        let mut i: usize = 0;
        while i < self.open_handles.len()
            invariant
                i <= self.open_handles@.len(),
                forall|k: int| 0 <= k < i ==> !is_entry_of(self.open_handles@, handle, k),
            decreases self.open_handles@.len() - i,
        {
            if self.open_handles[i].handle == handle {
                return Some(i);
            }
            i += 1;
        }
        None
    }

    /// The disposition that `handle` is registered with, if it is registered.
    pub fn disposition(&self, handle: ObjectHandle) -> (disposition: Option<HandleDisposition>)
        ensures
            disposition == disposition_of(self@, handle),
    {
        proof {
            use_type_invariant(self);
        }
        match self.find(handle) {
            Some(index) => {
                proof {
                    lemma_disposition_of(self@, handle, index as int);
                }
                Some(self.open_handles[index].disposition)
            },
            None => None,
        }
    }

    /// Registers a handle that the device has handed out, with what is owed
    /// to it. To register a handle again with the same disposition changes
    /// nothing.
    ///
    /// Fails with `InvalidParam` if the handle stands for no resource, and
    /// with `InconsistentParams` if the handle is registered with another
    /// disposition. A call that fails changes nothing.
    pub fn register(&mut self, handle: ObjectHandle, disposition: HandleDisposition) -> (r: Result<
        (),
        Error,
    >)
        ensures
            final(self).wf(),
            match r {
                Ok(()) => register_error(old(self)@, handle, disposition) is None && final(self)@
                    == registered(old(self)@, handle, disposition),
                Err(e) => register_error(old(self)@, handle, disposition) == Some(
                    e->WrapperError_0,
                ) && e is WrapperError && final(self)@ == old(self)@,
            },
    {
        proof {
            use_type_invariant(&*self);
        }
        if handle.is_placeholder() {
            return Err(Error::local_error(WrapperErrorKind::InvalidParam));
        }
        match self.find(handle) {
            Some(index) => {
                proof {
                    lemma_disposition_of(self@, handle, index as int);
                }
                if self.open_handles[index].disposition != disposition {
                    return Err(Error::local_error(WrapperErrorKind::InconsistentParams));
                }
            },
            None => {
                let ghost before = self.open_handles@;
                let mut handles: Vec<TrackedHandle> = Vec::new();
                core::mem::swap(&mut self.open_handles, &mut handles);
                handles.push(TrackedHandle { handle, disposition });
                proof {
                    assert(handles@ == before.push(TrackedHandle { handle, disposition }));
                    assert forall|i: int, j: int|
                        0 <= i < handles@.len() && 0 <= j < handles@.len() && i
                            != j implies handles@[i].handle != handles@[j].handle by {
                        if i == before.len() {
                            assert(!is_entry_of(before, handle, j));
                        } else if j == before.len() {
                            assert(!is_entry_of(before, handle, i));
                        } else {
                            assert(before[i].handle != before[j].handle);
                        }
                    }
                }
                self.open_handles = handles;
            },
        }
        Ok(())
    }

    /// Unregisters `handle` if it is registered with `disposition`.
    fn release(&mut self, handle: ObjectHandle, disposition: HandleDisposition) -> (r: Result<
        (),
        Error,
    >)
        ensures
            final(self).wf(),
            match r {
                Ok(()) => release_error(old(self)@, handle, disposition) is None && final(self)@
                    == without(old(self)@, handle),
                Err(e) => release_error(old(self)@, handle, disposition) is Some && e
                    == Error::WrapperError(WrapperErrorKind::InvalidParam) && final(self)@ == old(
                    self,
                )@,
            },
    {
        proof {
            use_type_invariant(&*self);
        }
        match self.find(handle) {
            Some(index) => {
                proof {
                    lemma_disposition_of(self@, handle, index as int);
                }
                if self.open_handles[index].disposition != disposition {
                    return Err(Error::local_error(WrapperErrorKind::InvalidParam));
                }
                let ghost before = self.open_handles@;
                let mut handles: Vec<TrackedHandle> = Vec::new();
                core::mem::swap(&mut self.open_handles, &mut handles);
                let _ = handles.remove(index);
                proof {
                    let chosen = choose|k: int| is_entry_of(before, handle, k);
                    assert(is_entry_of(before, handle, index as int));
                    assert(chosen == index);
                    assert(handles@ == before.remove(index as int));
                    assert forall|i: int, j: int|
                        0 <= i < handles@.len() && 0 <= j < handles@.len() && i
                            != j implies handles@[i].handle != handles@[j].handle by {
                        let a = if i < index { i } else { i + 1 };
                        let b = if j < index { j } else { j + 1 };
                        assert(before[a].handle != before[b].handle);
                    }
                }
                self.open_handles = handles;
                Ok(())
            },
            None => Err(Error::local_error(WrapperErrorKind::InvalidParam)),
        }
    }

    /// Records that the device has discarded `handle`, which is then no
    /// longer registered.
    ///
    /// Fails with `InvalidParam`, and changes nothing, unless the handle is
    /// registered as one that must be flushed.
    pub fn set_as_flushed(&mut self, handle: ObjectHandle) -> (r: Result<(), Error>)
        ensures
            final(self).wf(),
            match r {
                Ok(()) => disposition_of(old(self)@, handle) == Some(HandleDisposition::MustFlush)
                    && final(self)@ == without(old(self)@, handle),
                Err(e) => disposition_of(old(self)@, handle) != Some(HandleDisposition::MustFlush)
                    && e == Error::WrapperError(WrapperErrorKind::InvalidParam) && final(self)@
                    == old(self)@,
            },
    {
        self.release(handle, HandleDisposition::MustFlush)
    }

    /// Records that the reference `handle` has been closed, which is then no
    /// longer registered.
    ///
    /// Fails with `InvalidParam`, and changes nothing, unless the handle is
    /// registered as one that must be closed.
    pub fn set_as_closed(&mut self, handle: ObjectHandle) -> (r: Result<(), Error>)
        ensures
            final(self).wf(),
            match r {
                Ok(()) => disposition_of(old(self)@, handle) == Some(HandleDisposition::MustClose)
                    && final(self)@ == without(old(self)@, handle),
                Err(e) => disposition_of(old(self)@, handle) != Some(HandleDisposition::MustClose)
                    && e == Error::WrapperError(WrapperErrorKind::InvalidParam) && final(self)@
                    == old(self)@,
            },
    {
        self.release(handle, HandleDisposition::MustClose)
    }

    /// The handles that are registered with `disposition`.
    fn handles_of(&self, disposition: HandleDisposition) -> (handles: Vec<ObjectHandle>)
        ensures
            handles@ == handles_with(self@, disposition),
    {
        let mut handles: Vec<ObjectHandle> = Vec::new();
        let mut i: usize = 0;
        proof {
            assert(self.open_handles@.take(0) =~= Seq::<TrackedHandle>::empty());
        }
        while i < self.open_handles.len()
            invariant
                i <= self.open_handles@.len(),
                handles@ == handles_with(self.open_handles@.take(i as int), disposition),
            decreases self.open_handles@.len() - i,
        {
            proof {
                assert(self.open_handles@.take(i + 1).drop_last() =~= self.open_handles@.take(
                    i as int,
                ));
                assert(self.open_handles@.take(i + 1).last() == self.open_handles@[i as int]);
            }
            if self.open_handles[i].disposition == disposition {
                handles.push(self.open_handles[i].handle);
            }
            i += 1;
        }
        proof {
            assert(self.open_handles@.take(self.open_handles@.len() as int) =~= self.open_handles@);
        }
        handles
    }

    /// The handles that the device must be told to discard, in the order in
    /// which they were registered.
    pub fn handles_to_flush(&self) -> (handles: Vec<ObjectHandle>)
        ensures
            handles@ == handles_with(self@, HandleDisposition::MustFlush),
    {
        self.handles_of(HandleDisposition::MustFlush)
    }

    /// The references that must be closed, in the order in which they were
    /// registered.
    pub fn handles_to_close(&self) -> (handles: Vec<ObjectHandle>)
        ensures
            handles@ == handles_with(self@, HandleDisposition::MustClose),
    {
        self.handles_of(HandleDisposition::MustClose)
    }

    /// Whether a handle is registered that is still to be flushed or closed.
    pub fn has_open_handles(&self) -> (open: bool)
        ensures
            open == any_open(self@),
    {
        let mut i: usize = 0;
        while i < self.open_handles.len()
            invariant
                i <= self.open_handles@.len(),
                forall|k: int|
                    0 <= k < i ==> (#[trigger] self.open_handles@[k]).disposition
                        == HandleDisposition::Permanent,
            decreases self.open_handles@.len() - i,
        {
            if self.open_handles[i].disposition != HandleDisposition::Permanent {
                return true;
            }
            i += 1;
        }
        false
    }
}

} // verus!
