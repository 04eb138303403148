use vstd::prelude::*;

verus! {

/// Owner of one running synthesis engine.
///
/// The engine itself lives behind the C++ bridge; this value holds the
/// handle (the engine's address) that the bridge gave back when the engine
/// was created. A `SurgeSynthesizer` never holds the null handle: the only
/// way to build one is `new`, which refuses it.
pub struct SurgeSynthesizer {
    engine: usize,
}

impl SurgeSynthesizer {
    /// The engine handle that this value owns.
    pub closed spec fn handle(self) -> usize {
        self.engine
    }

    #[verifier::type_invariant]
    closed spec fn owns_live_engine(self) -> bool {
        self.engine != 0
    }

    /// Takes ownership of the engine that the bridge created.
    ///
    /// `engine` is the address that the bridge's engine constructor returned.
    /// A null address means that the engine could not be created: then no
    /// synthesizer exists and `None` comes back.
    pub fn new(engine: usize) -> (r: Option<SurgeSynthesizer>)
        ensures
            r is Some <==> engine != 0,
            r matches Some(s) ==> s.handle() == engine,
    {
        if engine == 0 {
            None
        } else {
            Some(SurgeSynthesizer { engine })
        }
    }

    /// The handle of the owned engine, never null.
    pub fn engine(&self) -> (h: usize)
        ensures
            h == self.handle(),
            h != 0,
    {
        proof {
            use_type_invariant(self);
        }
        self.engine
    }
}

} // verus!
