use vstd::prelude::*;

verus! {

/// The error of an adapter: either a failure of the adapter's own mediation, or the
/// error of the wrapped stage, carried unchanged.
#[derive(Debug)]
pub enum LayerError<E> {
    ServiceLayerError(&'static str),
    InnerError(E),
}

impl<E> From<E> for LayerError<E> {
    fn from(e: E) -> (r: Self)
        ensures
            r == LayerError::<E>::InnerError(e),
    {
        LayerError::InnerError(e)
    }
}

impl<E> vstd::std_specs::convert::FromSpecImpl<E> for LayerError<E> {
    open spec fn obeys_from_spec() -> bool {
        true
    }

    open spec fn from_spec(v: E) -> Self {
        LayerError::InnerError(v)
    }
}

} // verus!
