use vstd::prelude::*;

verus! {

/// At most one handle per display identifier.
///
/// Some mechanisms fail when initialised repeatedly, so their handle is
/// created once per display and shared from here: a caller looks a display
/// up, initialises only when nothing is registered for it, and registers the
/// result. Registering a second handle for a display is refused.
pub struct HandleRegistry<H> {
    displays: Vec<String>,
    handles: Vec<H>,
}

impl<H> HandleRegistry<H> {
    /// The registered display identifiers, in order of registration.
    pub closed spec fn displays(&self) -> Seq<Seq<char>> {
        self.displays@.map_values(|d: String| d@)
    }

    /// The handles, each at the index of its display.
    pub closed spec fn handles(&self) -> Seq<H> {
        self.handles@
    }

    pub open spec fn contains(&self, display: Seq<char>) -> bool {
        self.displays().contains(display)
    }

    pub open spec fn wf(&self) -> bool {
        &&& self.displays().len() == self.handles().len()
        &&& forall|i: int, j: int|
            0 <= i < j < self.displays().len() ==> #[trigger] self.displays()[i]
                != #[trigger] self.displays()[j]
    }

    pub fn new() -> (r: Self)
        ensures
            r.wf(),
            r.displays().len() == 0,
    {
        HandleRegistry { displays: Vec::new(), handles: Vec::new() }
    }

    pub fn len(&self) -> (r: usize)
        requires
            self.wf(),
        ensures
            r == self.displays().len(),
    {
        self.displays.len()
    }

    /// The index at which `display` is registered, if it is.
    pub fn position(&self, display: &String) -> (r: Option<usize>)
        requires
            self.wf(),
        ensures
            r is None <==> !self.contains(display@),
            r is Some ==> r->Some_0 < self.displays().len() && self.displays()[r->Some_0 as int]
                == display@,
    {
        let mut i: usize = 0;
        while i < self.displays.len()
            invariant
                0 <= i <= self.displays@.len(),
                forall|k: int| 0 <= k < i ==> self.displays()[k] != display@,
            decreases self.displays@.len() - i,
        {
            if self.displays[i].eq(display) {
                proof {
                    assert(self.displays()[i as int] == display@);
                }
                return Some(i);
            }
            i = i + 1;
        }
        proof {
            assert forall|k: int| 0 <= k < self.displays().len() implies self.displays()[k]
                != display@ by {}
        }
        None
    }

    /// The handle registered for `display`, if any.
    pub fn get(&self, display: &String) -> (r: Option<&H>)
        requires
            self.wf(),
        ensures
            r is None <==> !self.contains(display@),
            r is Some ==> exists|i: int|
                0 <= i < self.displays().len() && self.displays()[i] == display@ && *r->Some_0
                    == self.handles()[i],
    {
        match self.position(display) {
            Some(i) => Some(&self.handles[i]),
            None => None,
        }
    }

    /// Registers `handle` for `display` unless a handle is registered for it
    /// already, in which case `handle` is handed back and nothing changes.
    pub fn register(&mut self, display: String, handle: H) -> (r: Result<(), H>)
        requires
            old(self).wf(),
        ensures
            final(self).wf(),
            final(self).contains(display@),
            old(self).contains(display@) ==> r == Err::<(), H>(handle) && final(self).displays()
                == old(self).displays() && final(self).handles() == old(self).handles(),
            !old(self).contains(display@) ==> r is Ok && final(self).displays()
                == old(self).displays().push(display@) && final(self).handles()
                == old(self).handles().push(handle),
    {
        match self.position(&display) {
            Some(_) => Err(handle),
            None => {
                let ghost d = display@;
                self.displays.push(display);
                self.handles.push(handle);
                proof {
                    assert(self.displays() =~= old(self).displays().push(d));
                    assert(self.displays()[self.displays().len() - 1] == d);
                }
                Ok(())
            },
        }
    }
}

} // verus!
