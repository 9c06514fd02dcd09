//! The native functions this plugin offers, each with its parameter list.
use vstd::prelude::*;
use crate::error::DispatchError;
use crate::wire::{kind_of, kinds, kinds_of, WireCodec, WireKind, WireValue};

verus! {

/// Whether `version` names Arma 3.
pub fn is_arma3(version: u8) -> (r: bool)
    ensures
        r == (version == 3),
{
    version == 3
}

/// A native function that can be registered under a name. Its parameter list is
/// fixed by the variant, so the decode step always matches the function it feeds.
#[derive(PartialEq, Eq, Structural, Clone, Copy, Debug)]
pub enum NativeFunction {
    /// `is_arma3(version: u8) -> bool`
    IsArma3,
}

impl NativeFunction {
    /// The tags of the arguments that the function takes, in order.
    pub open spec fn params(self) -> Seq<WireKind> {
        match self {
            NativeFunction::IsArma3 => seq![WireKind::U8],
        }
    }

    /// Whether `args` have exactly the number and the tags that the function takes.
    pub open spec fn accepts(self, args: Seq<WireValue>) -> bool {
        &&& args.len() == self.params().len()
        &&& forall|i: int| 0 <= i < args.len() ==> kind_of(#[trigger] args[i]) == self.params()[i]
    }

    /// What the function returns on arguments it accepts; `None` where it faults.
    pub open spec fn result(self, args: Seq<WireValue>) -> Option<WireValue>
        recommends
            self.accepts(args),
    {
        match self {
            NativeFunction::IsArma3 => match args[0] {
                WireValue::U8(v) => Some(WireValue::Bool(v == 3)),
                _ => None,
            },
        }
    }

    /// What a call with `args` must produce: the result of the function, or the
    /// error that stands for a wrong argument list or a fault.
    pub open spec fn outcome(self, args: Seq<WireValue>, r: Result<WireValue, DispatchError>) -> bool {
        if self.accepts(args) {
            match self.result(args) {
                Some(v) => r == Ok::<WireValue, DispatchError>(v),
                None => r == Err::<WireValue, DispatchError>(DispatchError::Internal),
            }
        } else {
            r matches Err(DispatchError::BadArguments { expected, actual })
                && expected@ == self.params() && actual@ == kinds_of(args)
        }
    }

    /// The tags of the arguments that the function takes.
    pub fn param_kinds(&self) -> (r: Vec<WireKind>)
        ensures
            r@ == self.params(),
    {
        match self {
            NativeFunction::IsArma3 => vec![WireKind::U8],
        }
    }

    /// Decodes `args`, runs the function, and encodes its result.
    pub fn invoke(&self, args: &Vec<WireValue>) -> (r: Result<WireValue, DispatchError>)
        ensures
            self.outcome(args@, r),
    {
        match self {
            NativeFunction::IsArma3 => {
                if args.len() == 1 {
                    match u8::decode(&args[0]) {
                        Some(version) => {
                            proof {
                                assert(kinds_of(args@) =~= seq![WireKind::U8]);
                            }
                            return Ok(is_arma3(version).encode());
                        },
                        None => {
                            proof {
                                assert(kinds_of(args@)[0] != WireKind::U8);
                            }
                        },
                    }
                }
                proof {
                    assert(kinds_of(args@).len() == args@.len());
                    if args@.len() == 1 {
                        assert(kinds_of(args@)[0] != seq![WireKind::U8][0]);
                    }
                    assert(!self.accepts(args@));
                }
                Err(DispatchError::BadArguments { expected: self.param_kinds(), actual: kinds(args) })
            },
        }
    }
}

} // verus!
