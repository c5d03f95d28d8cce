//! The sentinel protocol: every type used as a factory field names one
//! distinguished value that means "not provided", and recognises it.

use vstd::prelude::*;

verus! {

/// A type whose values include one distinguished "unset" value.
///
/// A factory field that holds the sentinel asks for its foreign-key dependency
/// to be created automatically. The sentinel must be a value that a persisted
/// key can never take: numeric keys use `0`, text keys the empty string, and
/// `Option<T>` uses `None` (as well as `Some` of the inner sentinel).
pub trait Sentinel: Clone {
    /// What it means for `self` to be "unset".
    spec fn spec_is_sentinel(&self) -> bool;

    /// The value that stands for "not set, please auto-generate".
    /// It always recognises itself.
    fn sentinel() -> (r: Self)
        ensures
            r.spec_is_sentinel(),
    ;

    /// Whether `self` is unset. The answer depends on the value alone.
    fn is_sentinel(&self) -> (r: bool)
        ensures
            r == self.spec_is_sentinel(),
    ;
}

impl Sentinel for i64 {
    open spec fn spec_is_sentinel(&self) -> bool {
        *self == 0
    }

    fn sentinel() -> (r: Self) {
        0
    }

    fn is_sentinel(&self) -> (r: bool) {
        *self == 0
    }
}

impl Sentinel for i32 {
    open spec fn spec_is_sentinel(&self) -> bool {
        *self == 0
    }

    fn sentinel() -> (r: Self) {
        0
    }

    fn is_sentinel(&self) -> (r: bool) {
        *self == 0
    }
}

impl Sentinel for i16 {
    open spec fn spec_is_sentinel(&self) -> bool {
        *self == 0
    }

    fn sentinel() -> (r: Self) {
        0
    }

    fn is_sentinel(&self) -> (r: bool) {
        *self == 0
    }
}

impl Sentinel for u64 {
    open spec fn spec_is_sentinel(&self) -> bool {
        *self == 0
    }

    fn sentinel() -> (r: Self) {
        0
    }

    fn is_sentinel(&self) -> (r: bool) {
        *self == 0
    }
}

impl Sentinel for u32 {
    open spec fn spec_is_sentinel(&self) -> bool {
        *self == 0
    }

    fn sentinel() -> (r: Self) {
        0
    }

    fn is_sentinel(&self) -> (r: bool) {
        *self == 0
    }
}

impl Sentinel for String {
    open spec fn spec_is_sentinel(&self) -> bool {
        self@.len() == 0
    }

    fn sentinel() -> (r: Self) {
        String::new()
    }

    fn is_sentinel(&self) -> (r: bool) {
        self.as_str().is_empty()
    }
}

/// `None` is always unset; `Some(v)` is unset exactly when `v` is.
impl<T: Sentinel> Sentinel for Option<T> {
    open spec fn spec_is_sentinel(&self) -> bool {
        match self {
            None => true,
            Some(v) => v.spec_is_sentinel(),
        }
    }

    fn sentinel() -> (r: Self) {
        None
    }

    fn is_sentinel(&self) -> (r: bool) {
        match self {
            None => true,
            Some(v) => v.is_sentinel(),
        }
    }
}

/// Every integer key type takes `0` as its sentinel: zero is unset, and every
/// other value, negative ones included, is set.
pub proof fn numeric_sentinel_is_zero(a: i64, b: i32, c: i16, d: u64, e: u32)
    ensures
        a.spec_is_sentinel() <==> a == 0,
        b.spec_is_sentinel() <==> b == 0,
        c.spec_is_sentinel() <==> c == 0,
        d.spec_is_sentinel() <==> d == 0,
        e.spec_is_sentinel() <==> e == 0,
{
}

/// A text key is unset exactly when it is empty.
pub proof fn text_sentinel_is_empty(s: String)
    ensures
        s.spec_is_sentinel() <==> s@.len() == 0,
{
}

/// An optional value over a sentinel-aware type: absence is always unset, and
/// `Some(x)` is unset exactly when `x` is.
pub proof fn option_sentinel_follows_inner<T: Sentinel>(x: T)
    ensures
        None::<T>.spec_is_sentinel(),
        Some(x).spec_is_sentinel() == x.spec_is_sentinel(),
{
}

/// Recognition is a function of the value: asking twice about equal values
/// (the same value included) gives the same answer.
pub proof fn sentinel_recognition_is_stable<T: Sentinel>(a: T, b: T)
    requires
        a == b,
    ensures
        a.spec_is_sentinel() == b.spec_is_sentinel(),
{
}

} // verus!
