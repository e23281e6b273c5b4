use vstd::prelude::*;

verus! {

/// The alphabet of observable decorator actions.
///
/// The instrumented interceptors and middleware of this crate append one of
/// these to a [`Flow`] each time one of their phases runs, so that contracts
/// can pin down the exact order in which decorator phases execute during one
/// request's traversal of a composed handler chain.
#[derive(Clone, Copy, Debug, PartialEq, Eq, Structural)]
pub enum Action {
    AuthInterceptor,
    Interceptor2,
    Middleware1Before,
    Middleware1After,
}

/// An ordered record of the decorator phases that have run so far, threaded
/// through every call of a composed handler chain.
pub struct Flow {
    pub actions: Vec<Action>,
}

impl View for Flow {
    type V = Seq<Action>;

    open spec fn view(&self) -> Seq<Action> {
        self.actions@
    }
}

impl Flow {
    /// An empty record.
    pub fn new() -> (r: Flow)
        ensures
            r@ == Seq::<Action>::empty(),
    {
        Flow { actions: Vec::new() }
    }

    /// Appends one action to the record.
    pub fn add_action(&mut self, action: Action)
        ensures
            final(self)@ == old(self)@.push(action),
    {
        self.actions.push(action);
    }

    /// Returns a copy of everything recorded so far, oldest first.
    pub fn read_actions(&self) -> (r: Vec<Action>)
        ensures
            r@ == self@,
    {
        let mut out: Vec<Action> = Vec::new();
        let mut i: usize = 0;
        while i < self.actions.len()
            invariant
                i <= self.actions.len(),
                out@ == self@.take(i as int),
            decreases self.actions.len() - i,
        {
            out.push(self.actions[i]);
            proof {
                assert(self@.take(i + 1 as int) =~= self@.take(i as int).push(self@[i as int]));
            }
            i = i + 1;
        }
        proof {
            assert(self@.take(self.actions@.len() as int) =~= self@);
        }
        out
    }
}

impl Default for Flow {
    /// An empty record.
    fn default() -> (r: Flow)
        ensures
            r@ == Seq::<Action>::empty(),
    {
        Flow::new()
    }
}

} // verus!
