use vstd::prelude::*;

verus! {

/// The outcomes that mapping the payload `o` with `f` may have: nothing when
/// there is no payload, and otherwise one result that `f` may return for it.
pub open spec fn option_mapped<A, U, F: FnOnce(A) -> U>(o: Option<A>, f: F, r: Option<U>) -> bool {
    match o {
        Option::None => r is None,
        Option::Some(a) => r matches Option::Some(u) && f.ensures((a,), u),
    }
}

/// The same value with its payload seen through a reference.
pub open spec fn as_ref_of<'a, A>(o: Option<A>) -> Option<&'a A> {
    match o {
        Option::None => Option::None,
        Option::Some(a) => Option::Some(&a),
    }
}

/// Maps the payload of a borrowed optional value without an `as_ref()` first.
pub trait OptionRefMap<'o, T: 'o> {
    /// The payload, if there is one.
    spec fn payload(&self) -> Option<T>;

    /// Borrows the payload and maps it with `f`; `f` runs only when there is
    /// a payload, and then once.
    fn ref_map<U, F>(&'o self, f: F) -> (r: Option<U>) where F: FnOnce(&'o T) -> U
        requires
            self.payload() matches Option::Some(x) ==> f.requires((&x,)),
        ensures
            option_mapped(as_ref_of(self.payload()), f, r),
    ;
}

/// `ref_map` is `as_ref()` followed by `map`: given any `a` that `as_ref`
/// may return for `o`, `map` asks of `f` what `ref_map` asks, and the results
/// that `map` may give are exactly those that `ref_map` may give.
pub proof fn lemma_ref_map_is_as_ref_then_map<'a, T, U, F: FnOnce(&'a T) -> U>(
    o: Option<T>,
    a: Option<&'a T>,
    f: F,
    r: Option<U>,
)
    requires
        a is Some <==> o is Some,
        a is Some ==> o->0 == a->0,
    ensures
        (o matches Option::Some(x) ==> f.requires((&x,))) <==> (a.is_some() ==> f.requires(
            (a.unwrap(),),
        )),
        option_mapped(as_ref_of(o), f, r) <==> (r.is_some() == a.is_some() && (r.is_some()
            ==> f.ensures((a.unwrap(),), r.unwrap()))),
{
}

impl<'o, T: 'o> OptionRefMap<'o, T> for Option<T> {
    open spec fn payload(&self) -> Option<T> {
        *self
    }

    fn ref_map<U, F>(&'o self, f: F) -> (r: Option<U>) where F: FnOnce(&'o T) -> U
        ensures
            option_mapped(as_ref_of(*self), f, r),
    {
        match self {
            Option::Some(x) => Option::Some(f(x)),
            Option::None => Option::None,
        }
    }
}

} // verus!
