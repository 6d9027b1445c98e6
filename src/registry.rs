//! A store that maps opaque integer handles to instances.
use vstd::prelude::*;
use crate::error::ErrorKind;

verus! {

/// Instances under integer handles. Handles are handed out in increasing
/// order from 1 and never reused, so a released handle stays invalid.
pub struct HandleRegistry<T> {
    slots: Vec<Option<T>>,
}

impl<T> View for HandleRegistry<T> {
    /// Slot `h - 1` holds the instance under handle `h`, or `None` once it
    /// was released.
    type V = Seq<Option<T>>;

    closed spec fn view(&self) -> Seq<Option<T>> {
        self.slots@
    }
}

/// Whether `h` names a live instance in the slots `s`.
pub open spec fn live<T>(s: Seq<Option<T>>, h: u32) -> bool {
    1 <= h <= s.len() && s[h - 1] is Some
}

/// The instance under the live handle `h`.
pub open spec fn entry<T>(s: Seq<Option<T>>, h: u32) -> T {
    s[h - 1]->0
}

/// The slots after `h` was released.
pub open spec fn released<T>(s: Seq<Option<T>>, h: u32) -> Seq<Option<T>> {
    if live(s, h) {
        s.update(h - 1, None)
    } else {
        s
    }
}

impl<T> HandleRegistry<T> {
    /// An empty registry.
    pub fn new() -> (r: Self)
        ensures
            r@ == Seq::<Option<T>>::empty(),
    {
        HandleRegistry { slots: Vec::new() }
    }

    /// Stores `value` under a new handle, one past the last handed out; fails
    /// only when no handle is left.
    pub fn add(&mut self, value: T) -> (r: Result<u32, ErrorKind>)
        ensures
            old(self)@.len() < u32::MAX ==> r == Ok::<u32, ErrorKind>((old(self)@.len() + 1) as u32)
                && final(self)@ == old(self)@.push(Some(value)),
            old(self)@.len() >= u32::MAX ==> r == Err::<u32, ErrorKind>(ErrorKind::ObjectCacheFull)
                && final(self)@ == old(self)@,
    {
        if self.slots.len() >= 4294967295usize {
            return Err(ErrorKind::ObjectCacheFull);
        }
        self.slots.push(Some(value));
        Ok(self.slots.len() as u32)
    }

    /// Whether `handle` names a live instance.
    pub fn has_handle(&self, handle: u32) -> (r: bool)
        ensures
            r == live(self@, handle),
    {
        handle >= 1 && (handle as usize) <= self.slots.len() && self.slots[handle as usize
            - 1].is_some()
    }

    /// The instance under `handle`.
    pub fn get(&self, handle: u32) -> (r: Result<&T, ErrorKind>)
        ensures
            live(self@, handle) ==> r == Ok::<&T, ErrorKind>(&entry(self@, handle)),
            !live(self@, handle) ==> r == Err::<&T, ErrorKind>(ErrorKind::InvalidHandle),
    {
        if handle < 1 || (handle as usize) > self.slots.len() {
            return Err(ErrorKind::InvalidHandle);
        }
        match &self.slots[handle as usize - 1] {
            Some(t) => Ok(t),
            None => Err(ErrorKind::InvalidHandle),
        }
    }

    /// Replaces the instance under a live `handle`; never creates one.
    pub fn insert(&mut self, handle: u32, value: T) -> (r: Result<(), ErrorKind>)
        ensures
            live(old(self)@, handle) ==> r is Ok && final(self)@ == old(self)@.update(
                handle - 1,
                Some(value),
            ),
            !live(old(self)@, handle) ==> r == Err::<(), ErrorKind>(ErrorKind::InvalidHandle)
                && final(self)@ == old(self)@,
    {
        if !self.has_handle(handle) {
            return Err(ErrorKind::InvalidHandle);
        }
        self.slots.set(handle as usize - 1, Some(value));
        Ok(())
    }

    /// Removes and drops the instance under `handle`.
    pub fn release(&mut self, handle: u32) -> (r: Result<(), ErrorKind>)
        ensures
            live(old(self)@, handle) ==> r is Ok,
            !live(old(self)@, handle) ==> r == Err::<(), ErrorKind>(ErrorKind::InvalidHandle),
            final(self)@ == released(old(self)@, handle),
    {
        if !self.has_handle(handle) {
            return Err(ErrorKind::InvalidHandle);
        }
        self.slots.set(handle as usize - 1, None);
        Ok(())
    }

    /// Releases every instance; handles already handed out stay unused.
    pub fn drain(&mut self)
        ensures
            final(self)@.len() == old(self)@.len(),
            forall|h: u32| !live(#[trigger] final(self)@, h),
    {
        let n = self.slots.len();
        let mut i: usize = 0;
        while i < n
            invariant
                i <= n,
                n == self.slots@.len(),
                n == old(self)@.len(),
                forall|j: int| 0 <= j < i ==> self.slots@[j] is None,
            decreases n - i,
        {
            self.slots.set(i, None);
            i = i + 1;
        }
        assert forall|h: u32| !live(self@, h) by {
            if 1 <= h <= n {
                assert(self.slots@[h - 1] is None);
            }
        }
    }

    /// The live handles whose instances satisfy `pred`, in increasing order.
    pub fn find_by<F: Fn(&T) -> bool>(&self, pred: F) -> (r: Vec<u32>)
        requires
            forall|t: &T| pred.requires((t,)),
        ensures
            forall|k: int| 0 <= k < r@.len() ==> live(self@, #[trigger] r@[k]) && pred.ensures(
                (&entry(self@, r@[k]),),
                true,
            ),
            forall|k: int, l: int| 0 <= k < l < r@.len() ==> r@[k] < r@[l],
            forall|h: u32|
                live(self@, h) && !r@.contains(h) ==> pred.ensures((&entry(self@, h),), false),
    {
        let mut out: Vec<u32> = Vec::new();
        let n = self.slots.len();
        let mut i: usize = 0;
        while i < n && i < 4294967295usize
            invariant
                i <= n,
                n == self.slots@.len(),
                forall|t: &T| pred.requires((t,)),
                forall|k: int|
                    0 <= k < out@.len() ==> 1 <= #[trigger] out@[k] <= i && live(self@, out@[k])
                        && pred.ensures((&entry(self@, out@[k]),), true),
                forall|k: int, l: int| 0 <= k < l < out@.len() ==> out@[k] < out@[l],
                forall|h: u32|
                    1 <= h <= i && live(self@, h) && !out@.contains(h) ==> pred.ensures(
                        (&entry(self@, h),),
                        false,
                    ),
            decreases n - i,
        {
            let ghost before = out@;
            match &self.slots[i] {
                Some(t) => {
                    let keep = pred(t);
                    assert(entry(self@, (i + 1) as u32) == *t);
                    assert(pred.ensures((t,), keep));
                    if keep {
                        out.push((i + 1) as u32);
                        assert(out@[out@.len() - 1] == (i + 1) as u32);
                    }
                },
                None => {},
            }
            assert forall|h: u32| 1 <= h <= i && before.contains(h) implies out@.contains(h) by {
                let k = choose|k: int| 0 <= k < before.len() && before[k] == h;
                assert(out@[k] == h);
            }
            assert forall|h: u32|
                1 <= h <= i + 1 && live(self@, h) && !out@.contains(h) implies pred.ensures(
                (&entry(self@, h),),
                false,
            ) by {
                if h <= i {
                    assert(!before.contains(h));
                }
            }
            i = i + 1;
        }
        out
    }
}

} // verus!
