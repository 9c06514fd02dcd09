//! The entry point the host calls: the initialization hook, the capability query,
//! and calls of registered functions by name.
use vstd::prelude::*;
use crate::error::DispatchError;
use crate::functions::NativeFunction;
use crate::registry::Registry;
use crate::wire::WireValue;

verus! {

/// The version the host checks before it makes any call.
pub const CAPABILITY_VERSION: u32 = 1;

/// The functions that the initialization hook registers, by name.
pub open spec fn plugin_functions() -> Map<Seq<char>, NativeFunction> {
    map!["is_arma3"@ => NativeFunction::IsArma3]
}

/// The plugin's state: not yet initialized, or initialized with a table that
/// no longer changes. Calls take `&self`, so nothing a call does can touch the
/// table or another call.
pub struct Dispatcher {
    registry: Registry,
    initialized: bool,
}

impl Dispatcher {
    pub closed spec fn is_initialized(&self) -> bool {
        self.initialized
    }

    /// The registered functions, by name.
    pub closed spec fn functions(&self) -> Map<Seq<char>, NativeFunction> {
        self.registry@
    }

    pub closed spec fn wf(&self) -> bool {
        self.registry.wf()
    }

    /// What a call of `name` with `args` must return.
    pub open spec fn call_outcome(
        self,
        name: Seq<char>,
        args: Seq<WireValue>,
        r: Result<WireValue, DispatchError>,
    ) -> bool {
        if !self.is_initialized() {
            r == Err::<WireValue, DispatchError>(DispatchError::NotInitialized)
        } else if !self.functions().contains_key(name) {
            r == Err::<WireValue, DispatchError>(DispatchError::UnknownFunction)
        } else {
            self.functions()[name].outcome(args, r)
        }
    }

    /// A plugin that has just been loaded.
    pub fn new() -> (d: Dispatcher)
        ensures
            d.wf(),
            !d.is_initialized(),
            d.functions() == Map::<Seq<char>, NativeFunction>::empty(),
    {
        Dispatcher { registry: Registry::new(), initialized: false }
    }

    /// The initialization hook: registers the plugin's functions the first time;
    /// a later call leaves the state as it is.
    pub fn on_init(&mut self)
        requires
            old(self).wf(),
        ensures
            final(self).wf(),
            init_step(*old(self), *final(self)),
    {
        if !self.initialized {
            let mut registry = Registry::new();
            let _ = registry.register(String::from_str("is_arma3"), NativeFunction::IsArma3);
            self.registry = registry;
            self.initialized = true;
            proof {
                assert(self.functions() =~= plugin_functions());
            }
        }
    }

    /// The function registered under `name`, or `None` where there is none.
    pub fn lookup(&self, name: &str) -> (r: Option<NativeFunction>)
        requires
            self.wf(),
        ensures
            r == (if self.functions().contains_key(name@) {
                Some(self.functions()[name@])
            } else {
                None::<NativeFunction>
            }),
    {
        self.registry.lookup(&name.to_owned())
    }

    /// Calls the function registered under `name` with `args`.
    pub fn call(&self, name: &str, args: &Vec<WireValue>) -> (r: Result<WireValue, DispatchError>)
        requires
            self.wf(),
        ensures
            self.call_outcome(name@, args@, r),
    {
        if !self.initialized {
            return Err(DispatchError::NotInitialized);
        }
        match self.registry.lookup(&name.to_owned()) {
            None => Err(DispatchError::UnknownFunction),
            Some(function) => function.invoke(args),
        }
    }

    /// The version the host checks before it makes any call; it has no side effect.
    pub fn capability_version() -> (v: u32)
        ensures
            v == CAPABILITY_VERSION,
    {
        CAPABILITY_VERSION
    }
}

/// What the initialization hook does to the state.
pub open spec fn init_step(before: Dispatcher, after: Dispatcher) -> bool {
    &&& after.is_initialized()
    &&& after.functions() == if before.is_initialized() {
        before.functions()
    } else {
        plugin_functions()
    }
}

/// Running the initialization hook a second time leaves the table as the first run left it.
pub proof fn lemma_on_init_idempotent(d0: Dispatcher, d1: Dispatcher, d2: Dispatcher)
    requires
        init_step(d0, d1),
        init_step(d1, d2),
    ensures
        d2.is_initialized(),
        d2.functions() == d1.functions(),
        !d0.is_initialized() ==> d2.functions() == plugin_functions(),
{
}

/// A name that is not in the table is not found, whatever the arguments.
pub proof fn lemma_unknown_name(
    d: Dispatcher,
    name: Seq<char>,
    args: Seq<WireValue>,
    r: Result<WireValue, DispatchError>,
)
    requires
        d.is_initialized(),
        !d.functions().contains_key(name),
        d.call_outcome(name, args, r),
    ensures
        r == Err::<WireValue, DispatchError>(DispatchError::UnknownFunction),
{
}

/// Two results that say the same thing: equal values, or the same error with the
/// same shapes.
pub open spec fn same_result(r1: Result<WireValue, DispatchError>, r2: Result<WireValue, DispatchError>) -> bool {
    match (r1, r2) {
        (
            Err(DispatchError::BadArguments { expected: e1, actual: a1 }),
            Err(DispatchError::BadArguments { expected: e2, actual: a2 }),
        ) => e1@ == e2@ && a1@ == a2@,
        _ => r1 == r2,
    }
}

/// Once initialized, calls share no mutable state: two calls of one name with
/// the same arguments, in any order or at once, give the same result.
pub proof fn lemma_calls_independent(
    d: Dispatcher,
    name: Seq<char>,
    args: Seq<WireValue>,
    r1: Result<WireValue, DispatchError>,
    r2: Result<WireValue, DispatchError>,
)
    requires
        d.call_outcome(name, args, r1),
        d.call_outcome(name, args, r2),
    ensures
        same_result(r1, r2),
{
}

} // verus!
