//! Values exchanged with the host, and the codec of each native type.
use vstd::prelude::*;

verus! {

/// The tag of a wire value: what a function's parameter list is described with.
#[derive(PartialEq, Eq, Structural, Clone, Copy, Debug)]
pub enum WireKind {
    Str,
    U8,
    U32,
    U64,
    I32,
    I64,
    Bool,
    Array,
}

/// A value in the representation that the host and the plugin agree on.
#[derive(Debug, PartialEq, Eq)]
pub enum WireValue {
    Str(String),
    U8(u8),
    U32(u32),
    U64(u64),
    I32(i32),
    I64(i64),
    Bool(bool),
    Array(Vec<WireValue>),
}

/// The tag of `v`.
pub open spec fn kind_of(v: WireValue) -> WireKind {
    match v {
        WireValue::Str(_) => WireKind::Str,
        WireValue::U8(_) => WireKind::U8,
        WireValue::U32(_) => WireKind::U32,
        WireValue::U64(_) => WireKind::U64,
        WireValue::I32(_) => WireKind::I32,
        WireValue::I64(_) => WireKind::I64,
        WireValue::Bool(_) => WireKind::Bool,
        WireValue::Array(_) => WireKind::Array,
    }
}

/// The tags of a sequence of values, in order.
pub open spec fn kinds_of(vs: Seq<WireValue>) -> Seq<WireKind> {
    vs.map_values(|v: WireValue| kind_of(v))
}

/// Every variant but `Array` carries a single primitive value.
pub open spec fn is_primitive(v: WireValue) -> bool {
    !(v is Array)
}

impl WireValue {
    /// The tag of this value.
    pub fn kind(&self) -> (k: WireKind)
        ensures
            k == kind_of(*self),
    {
        match self {
            WireValue::Str(_) => WireKind::Str,
            WireValue::U8(_) => WireKind::U8,
            WireValue::U32(_) => WireKind::U32,
            WireValue::U64(_) => WireKind::U64,
            WireValue::I32(_) => WireKind::I32,
            WireValue::I64(_) => WireKind::I64,
            WireValue::Bool(_) => WireKind::Bool,
            WireValue::Array(_) => WireKind::Array,
        }
    }
}

/// The tags of `vs`, in order.
pub fn kinds(vs: &Vec<WireValue>) -> (r: Vec<WireKind>)
    ensures
        r@ == kinds_of(vs@),
{
    let mut r: Vec<WireKind> = Vec::new();
    let mut i: usize = 0;
    while i < vs.len()
        invariant
            i <= vs@.len(),
            r@ == kinds_of(vs@.subrange(0, i as int)),
        decreases vs@.len() - i,
    {
        r.push(vs[i].kind());
        proof {
            assert(vs@.subrange(0, i + 1) == vs@.subrange(0, i as int).push(vs@[i as int]));
        }
        i = i + 1;
    }
    proof {
        assert(vs@.subrange(0, vs@.len() as int) == vs@);
    }
    r
}

/// The codec of one native type: how a value of it is put on the wire and read back.
pub trait WireCodec: Sized {
    /// The wire value that `x` is sent as.
    spec fn spec_encode(x: Self) -> WireValue;

    /// The native value that `w` stands for, if it has the right tag.
    spec fn spec_decode(w: WireValue) -> Option<Self>;

    fn encode(self) -> (w: WireValue)
        ensures
            w == Self::spec_encode(self),
    ;

    fn decode(w: &WireValue) -> (r: Option<Self>)
        ensures
            r == Self::spec_decode(*w),
    ;
}

impl WireCodec for u8 {
    open spec fn spec_encode(x: u8) -> WireValue {
        WireValue::U8(x)
    }

    open spec fn spec_decode(w: WireValue) -> Option<u8> {
        match w {
            WireValue::U8(x) => Some(x),
            _ => None,
        }
    }

    fn encode(self) -> (w: WireValue) {
        WireValue::U8(self)
    }

    fn decode(w: &WireValue) -> (r: Option<u8>) {
        match w {
            WireValue::U8(x) => Some(*x),
            _ => None,
        }
    }
}

impl WireCodec for u32 {
    open spec fn spec_encode(x: u32) -> WireValue {
        WireValue::U32(x)
    }

    open spec fn spec_decode(w: WireValue) -> Option<u32> {
        match w {
            WireValue::U32(x) => Some(x),
            _ => None,
        }
    }

    fn encode(self) -> (w: WireValue) {
        WireValue::U32(self)
    }

    fn decode(w: &WireValue) -> (r: Option<u32>) {
        match w {
            WireValue::U32(x) => Some(*x),
            _ => None,
        }
    }
}

impl WireCodec for u64 {
    open spec fn spec_encode(x: u64) -> WireValue {
        WireValue::U64(x)
    }

    open spec fn spec_decode(w: WireValue) -> Option<u64> {
        match w {
            WireValue::U64(x) => Some(x),
            _ => None,
        }
    }

    fn encode(self) -> (w: WireValue) {
        WireValue::U64(self)
    }

    fn decode(w: &WireValue) -> (r: Option<u64>) {
        match w {
            WireValue::U64(x) => Some(*x),
            _ => None,
        }
    }
}

impl WireCodec for i32 {
    open spec fn spec_encode(x: i32) -> WireValue {
        WireValue::I32(x)
    }

    open spec fn spec_decode(w: WireValue) -> Option<i32> {
        match w {
            WireValue::I32(x) => Some(x),
            _ => None,
        }
    }

    fn encode(self) -> (w: WireValue) {
        WireValue::I32(self)
    }

    fn decode(w: &WireValue) -> (r: Option<i32>) {
        match w {
            WireValue::I32(x) => Some(*x),
            _ => None,
        }
    }
}

impl WireCodec for i64 {
    open spec fn spec_encode(x: i64) -> WireValue {
        WireValue::I64(x)
    }

    open spec fn spec_decode(w: WireValue) -> Option<i64> {
        match w {
            WireValue::I64(x) => Some(x),
            _ => None,
        }
    }

    fn encode(self) -> (w: WireValue) {
        WireValue::I64(self)
    }

    fn decode(w: &WireValue) -> (r: Option<i64>) {
        match w {
            WireValue::I64(x) => Some(*x),
            _ => None,
        }
    }
}

impl WireCodec for bool {
    open spec fn spec_encode(x: bool) -> WireValue {
        WireValue::Bool(x)
    }

    open spec fn spec_decode(w: WireValue) -> Option<bool> {
        match w {
            WireValue::Bool(x) => Some(x),
            _ => None,
        }
    }

    fn encode(self) -> (w: WireValue) {
        WireValue::Bool(self)
    }

    fn decode(w: &WireValue) -> (r: Option<bool>) {
        match w {
            WireValue::Bool(x) => Some(*x),
            _ => None,
        }
    }
}

impl WireCodec for String {
    open spec fn spec_encode(x: String) -> WireValue {
        WireValue::Str(x)
    }

    open spec fn spec_decode(w: WireValue) -> Option<String> {
        match w {
            WireValue::Str(x) => Some(x),
            _ => None,
        }
    }

    fn encode(self) -> (w: WireValue) {
        WireValue::Str(self)
    }

    fn decode(w: &WireValue) -> (r: Option<String>) {
        match w {
            WireValue::Str(x) => Some(x.clone()),
            _ => None,
        }
    }
}

/// Each primitive value survives a trip through its native type: decoding it gives
/// the value it carries, and encoding that value gives the wire value back.
pub proof fn lemma_round_trip(v: WireValue)
    requires
        is_primitive(v),
    ensures
        match v {
            WireValue::Str(x) => String::spec_decode(v) == Some(x)
                && String::spec_decode(String::spec_encode(x)) == Some(x) && String::spec_encode(x) == v,
            WireValue::U8(x) => u8::spec_decode(v) == Some(x)
                && u8::spec_decode(u8::spec_encode(x)) == Some(x) && u8::spec_encode(x) == v,
            WireValue::U32(x) => u32::spec_decode(v) == Some(x)
                && u32::spec_decode(u32::spec_encode(x)) == Some(x) && u32::spec_encode(x) == v,
            WireValue::U64(x) => u64::spec_decode(v) == Some(x)
                && u64::spec_decode(u64::spec_encode(x)) == Some(x) && u64::spec_encode(x) == v,
            WireValue::I32(x) => i32::spec_decode(v) == Some(x)
                && i32::spec_decode(i32::spec_encode(x)) == Some(x) && i32::spec_encode(x) == v,
            WireValue::I64(x) => i64::spec_decode(v) == Some(x)
                && i64::spec_decode(i64::spec_encode(x)) == Some(x) && i64::spec_encode(x) == v,
            WireValue::Bool(x) => bool::spec_decode(v) == Some(x)
                && bool::spec_decode(bool::spec_encode(x)) == Some(x) && bool::spec_encode(x) == v,
            WireValue::Array(_) => false,
        },
{
}

/// A wire value decodes under exactly one native type: the one its tag names.
pub proof fn lemma_decode_only_by_tag(v: WireValue)
    ensures
        String::spec_decode(v) is Some <==> kind_of(v) == WireKind::Str,
        u8::spec_decode(v) is Some <==> kind_of(v) == WireKind::U8,
        u32::spec_decode(v) is Some <==> kind_of(v) == WireKind::U32,
        u64::spec_decode(v) is Some <==> kind_of(v) == WireKind::U64,
        i32::spec_decode(v) is Some <==> kind_of(v) == WireKind::I32,
        i64::spec_decode(v) is Some <==> kind_of(v) == WireKind::I64,
        bool::spec_decode(v) is Some <==> kind_of(v) == WireKind::Bool,
{
}

} // verus!
