use vstd::prelude::*;
use vstd::std_specs::cmp::PartialEqSpec;
use vstd::std_specs::convert::FromSpec;

use crate::error::{Error, ErrorView, Source};

verus! {

/// Whatever way an error is made, its kind is the kind it was made with.
pub proof fn kind_is_kept<K>(kind: K, message: Seq<char>, source: Seq<char>)
    ensures
        (ErrorView::Simple { kind }).kind() == kind,
        (ErrorView::Message { kind, message }).kind() == kind,
        (ErrorView::Custom { kind, source }).kind() == kind,
{
}

/// Converting a kind gives a simple error of that kind, converting a kind and a static
/// message gives an error with that message, and converting a kind and a source gives
/// an error with that source.
pub proof fn conversions_match_constructors<K>(kind: K, message: &'static str, source: Source)
    ensures
        <Error<K> as FromSpec<K>>::from_spec(kind)@ == (ErrorView::Simple { kind }),
        <Error<K> as FromSpec<(K, &'static str)>>::from_spec((kind, message))@
            == (ErrorView::Message { kind, message: message@ }),
        <Error<K> as FromSpec<(K, Source)>>::from_spec((kind, source))@
            == (ErrorView::Custom { kind, source: source@ }),
{
    crate::error::conversions_build_constructor_values(kind, message, source);
}

/// Equality is structural: two errors are equal only when they have the same
/// representation, equal kinds, and the same message or source text.
pub proof fn equality_is_structural<K: PartialEq>(a: Error<K>, b: Error<K>)
    ensures
        a.eq_spec(&b) <==> {
            &&& a@.kind().eq_spec(&b@.kind())
            &&& match (a@, b@) {
                (ErrorView::Simple { .. }, ErrorView::Simple { .. }) => true,
                (ErrorView::Message { message: m, .. }, ErrorView::Message { message: n, .. }) => m == n,
                (ErrorView::Custom { source: m, .. }, ErrorView::Custom { source: n, .. }) => m == n,
                _ => false,
            }
        },
{
}

/// Where equality on kinds is reflexive, every error equals itself.
pub proof fn equality_is_reflexive<K: PartialEq>(e: Error<K>)
    requires
        forall|k: K| #[trigger] k.eq_spec(&k),
    ensures
        e.eq_spec(&e),
{
    let k = e@.kind();
    assert(k.eq_spec(&k));
}

/// Where equality on kinds is symmetric, so is equality on errors.
pub proof fn equality_is_symmetric<K: PartialEq>(a: Error<K>, b: Error<K>)
    requires
        forall|x: K, y: K| #[trigger] x.eq_spec(&y) ==> y.eq_spec(&x),
    ensures
        a.eq_spec(&b) ==> b.eq_spec(&a),
{
    let x = a@.kind();
    let y = b@.kind();
    assert(x.eq_spec(&y) ==> y.eq_spec(&x));
}

/// Where equality on kinds is transitive, so is equality on errors.
pub proof fn equality_is_transitive<K: PartialEq>(a: Error<K>, b: Error<K>, c: Error<K>)
    requires
        forall|x: K, y: K, z: K| #[trigger] x.eq_spec(&y) && #[trigger] y.eq_spec(&z) ==> x.eq_spec(&z),
    ensures
        a.eq_spec(&b) && b.eq_spec(&c) ==> a.eq_spec(&c),
{
    let x = a@.kind();
    let y = b@.kind();
    let z = c@.kind();
    assert(x.eq_spec(&y) && y.eq_spec(&z) ==> x.eq_spec(&z));
}

} // verus!
