use std::marker::PhantomData;
use vstd::prelude::*;
use vstd::std_specs::convert::IntoSpec;

verus! {

/// The basic adapter around a wrapped stage `S`: it takes requests of type `In`, converts
/// them into the wrapped stage's request type `Out`, and passes the wrapped stage's response
/// (of type `Ret`) and error back unchanged.
pub struct BasicPatternService<S, In, Out, Ret> {
    pub inner: S,
    pub phantom_input: PhantomData<In>,
    pub phantom_output: PhantomData<Out>,
    pub phantom_return: PhantomData<Ret>,
}

impl<S, In: Into<Out>, Out, Ret> BasicPatternService<S, In, Out, Ret> {
    /// The request that the wrapped stage receives for the caller's request `input`.
    pub fn convert_request(&self, input: In) -> (r: Out)
        ensures
            In::obeys_into_spec() ==> r == input.into_spec(),
    {
        input.into()
    }

    /// Calls the wrapped stage, given as `stage`, with the converted request, and returns
    /// what it returns.
    pub fn call<E, F: FnOnce(Out) -> Result<Ret, E>>(&self, input: In, stage: F) -> (r: Result<Ret, E>)
        requires
            forall|x: Out| stage.requires((x,)),
        ensures
            In::obeys_into_spec() ==> stage.ensures((input.into_spec(),), r),
    {
        let request = self.convert_request(input);
        stage(request)
    }

    pub fn inner_mut(&mut self) -> (r: &mut S)
        ensures
            *r == old(self).inner,
            final(self).inner == *final(r),
    {
        &mut self.inner
    }
}

/// Builds basic adapters from requests of type `In` to a wrapped stage that takes `Out` and
/// responds with `Ret`.
pub struct BasicPatternLayer<In, Out, Ret> {
    pub phantom_input: PhantomData<In>,
    pub phantom_output: PhantomData<Out>,
    pub phantom_return: PhantomData<Ret>,
}

impl<In, Out, Ret> Default for BasicPatternLayer<In, Out, Ret> {
    fn default() -> (r: Self)
        ensures
            r == (BasicPatternLayer::<In, Out, Ret> {
                phantom_input: PhantomData,
                phantom_output: PhantomData,
                phantom_return: PhantomData,
            }),
    {
        BasicPatternLayer { phantom_input: PhantomData, phantom_output: PhantomData, phantom_return: PhantomData }
    }
}

impl<In, Out, Ret> BasicPatternLayer<In, Out, Ret> {
    pub fn layer<S>(&self, inner: S) -> (r: BasicPatternService<S, In, Out, Ret>)
        ensures
            r.inner == inner,
    {
        BasicPatternService {
            inner,
            phantom_input: PhantomData,
            phantom_output: PhantomData,
            phantom_return: PhantomData,
        }
    }
}

} // verus!
