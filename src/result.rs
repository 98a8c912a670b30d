use vstd::prelude::*;

verus! {

/// The same value with each payload seen through a reference.
pub open spec fn as_refs<'a, A, B>(o: Result<A, B>) -> Result<&'a A, &'a B> {
    match o {
        Result::Ok(a) => Result::Ok(&a),
        Result::Err(b) => Result::Err(&b),
    }
}

/// The outcomes that mapping the success payload of `o` with `f` may have:
/// a failure is handed back as it is, and a success becomes one result that
/// `f` may return for its payload.
pub open spec fn ok_mapped<A, B, U, F: FnOnce(A) -> U>(o: Result<A, B>, f: F, r: Result<U, B>) -> bool {
    match o {
        Result::Ok(a) => r matches Result::Ok(u) && f.ensures((a,), u),
        Result::Err(b) => r == Result::<U, B>::Err(b),
    }
}

/// The outcomes that mapping the failure payload of `o` with `f` may have:
/// a success is handed back as it is, and a failure becomes one result that
/// `f` may return for its payload.
pub open spec fn err_mapped<A, B, D, F: FnOnce(B) -> D>(o: Result<A, B>, f: F, r: Result<A, D>) -> bool {
    match o {
        Result::Ok(a) => r == Result::<A, D>::Ok(a),
        Result::Err(b) => r matches Result::Err(d) && f.ensures((b,), d),
    }
}

/// Maps the payload of one variant of a borrowed success/failure value
/// without an `as_ref()` first; the other variant's payload comes back
/// borrowed.
pub trait ResultRefMap<'r, T: 'r, E: 'r> {
    /// The value as a `Result`, for the contracts below.
    spec fn outcome(&self) -> Result<T, E>;

    /// Borrows the success payload and maps it with `f`; a failure comes back
    /// as a reference to its payload, and `f` does not run.
    fn ref_map<U, F>(&'r self, f: F) -> (r: Result<U, &E>) where F: FnOnce(&'r T) -> U + 'r
        requires
            self.outcome() matches Result::Ok(x) ==> f.requires((&x,)),
        ensures
            ok_mapped(as_refs(self.outcome()), f, r),
    ;

    /// Borrows the failure payload and maps it with `f`; a success comes back
    /// as a reference to its payload, and `f` does not run.
    fn ref_map_err<D, F>(&'r self, f: F) -> (r: Result<&T, D>) where F: FnOnce(&'r E) -> D + 'r
        requires
            self.outcome() matches Result::Err(x) ==> f.requires((&x,)),
        ensures
            err_mapped(as_refs(self.outcome()), f, r),
    ;
}

/// `ref_map` is `as_ref()` followed by `map`: given any `a` that `as_ref`
/// may return for `o`, `map` asks of `f` what `ref_map` asks, and the results
/// that `map` may give are exactly those that `ref_map` may give.
pub proof fn lemma_ref_map_is_as_ref_then_map<'a, T, E, U, F: FnOnce(&'a T) -> U>(
    o: Result<T, E>,
    a: Result<&'a T, &'a E>,
    f: F,
    r: Result<U, &'a E>,
)
    requires
        a is Ok <==> o is Ok,
        a is Ok ==> o->Ok_0 == a->Ok_0,
        a is Err <==> o is Err,
        a is Err ==> o->Err_0 == a->Err_0,
    ensures
        (o matches Result::Ok(x) ==> f.requires((&x,))) <==> (a.is_ok() ==> f.requires(
            (a->Ok_0,),
        )),
        ok_mapped(as_refs(o), f, r) <==> ((a.is_ok() ==> r.is_ok() && f.ensures(
            (a->Ok_0,),
            r->Ok_0,
        )) && (a.is_err() ==> r == Result::<U, &E>::Err(a->Err_0))),
{
}

/// `ref_map_err` is `as_ref()` followed by `map_err`: given any `a` that
/// `as_ref` may return for `o`, `map_err` asks of `f` what `ref_map_err` asks,
/// and the results that `map_err` may give are exactly those that
/// `ref_map_err` may give.
pub proof fn lemma_ref_map_err_is_as_ref_then_map_err<'a, T, E, D, F: FnOnce(&'a E) -> D>(
    o: Result<T, E>,
    a: Result<&'a T, &'a E>,
    f: F,
    r: Result<&'a T, D>,
)
    requires
        a is Ok <==> o is Ok,
        a is Ok ==> o->Ok_0 == a->Ok_0,
        a is Err <==> o is Err,
        a is Err ==> o->Err_0 == a->Err_0,
    ensures
        (o matches Result::Err(x) ==> f.requires((&x,))) <==> (a.is_err() ==> f.requires(
            (a->Err_0,),
        )),
        err_mapped(as_refs(o), f, r) <==> ((a.is_err() ==> r.is_err() && f.ensures(
            (a->Err_0,),
            r->Err_0,
        )) && (a.is_ok() ==> r == Result::<&T, D>::Ok(a->Ok_0))),
{
}

impl<'r, T: 'r, E: 'r> ResultRefMap<'r, T, E> for Result<T, E> {
    open spec fn outcome(&self) -> Result<T, E> {
        *self
    }

    fn ref_map<U, F>(&'r self, f: F) -> (r: Result<U, &E>) where F: FnOnce(&'r T) -> U + 'r
        ensures
            ok_mapped(as_refs(*self), f, r),
    {
        match self {
            Result::Ok(x) => Result::Ok(f(x)),
            Result::Err(x) => Result::Err(x),
        }
    }

    fn ref_map_err<D, F>(&'r self, f: F) -> (r: Result<&T, D>) where F: FnOnce(&'r E) -> D + 'r
        ensures
            err_mapped(as_refs(*self), f, r),
    {
        match self {
            Result::Ok(x) => Result::Ok(x),
            Result::Err(x) => Result::Err(f(x)),
        }
    }
}

} // verus!
