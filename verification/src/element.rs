//! Pipeline element building blocks: the processing context and the
//! pass-through, map and filter elements.

use vstd::prelude::*;
use std::marker::PhantomData;
use crate::frame::Frame;

verus! {

/// Marker trait for types that can flow through pipelines.
pub trait PipelineData: Send + Sync + 'static {}

impl<T: Send + Sync + 'static> PipelineData for T {}

/// Trait for element configuration types.
pub trait ElementConfig: Send + Sync + Default + 'static {}

impl ElementConfig for () {}

/// Context provided to elements during processing.
pub struct ElementContext {
    pub element_name: String,
    pub pipeline_name: String,
}

impl ElementContext {
    /// A context for the named element in the named pipeline.
    pub fn new(element_name: &str, pipeline_name: &str) -> (r: ElementContext)
        ensures
            r.element_name@ == element_name@,
            r.pipeline_name@ == pipeline_name@,
    {
        ElementContext {
            element_name: String::from_str(element_name),
            pipeline_name: String::from_str(pipeline_name),
        }
    }
}

/// A pass-through element that hands every frame on unchanged.
/// Useful as a placeholder or for debugging.
pub struct PassThrough<T> {
    name: String,
    _phantom: PhantomData<T>,
}

impl<T> PassThrough<T> {
    /// The element's name.
    pub closed spec fn spec_name(&self) -> Seq<char> {
        self.name@
    }

    /// A pass-through element with the given name.
    pub fn new(name: &str) -> (r: PassThrough<T>)
        ensures
            r.spec_name() == name@,
    {
        PassThrough { name: String::from_str(name), _phantom: PhantomData }
    }

    /// The element's name.
    pub fn name(&self) -> (r: &str)
        ensures
            r@ == self.spec_name(),
    {
        self.name.as_str()
    }

    /// Hands the frame on unchanged.
    pub fn process_frame(&mut self, frame: Frame<T>) -> (r: Option<Frame<T>>)
        ensures
            r == Some(frame),
    {
        Some(frame)
    }
}

/// An element that transforms payloads with a closure.
#[verifier::reject_recursive_types(I)]
#[verifier::reject_recursive_types(O)]
pub struct MapElement<I, O, F> where F: FnMut(I) -> O + Send + Sync {
    name: String,
    f: F,
    _phantom: PhantomData<(I, O)>,
}

impl<I, O, F> MapElement<I, O, F> where F: FnMut(I) -> O + Send + Sync {
    /// The element's name.
    pub closed spec fn spec_name(&self) -> Seq<char> {
        self.name@
    }

    /// The element's transformation.
    pub closed spec fn spec_function(&self) -> F {
        self.f
    }

    /// A map element with the given name and transformation.
    pub fn new(name: &str, f: F) -> (r: MapElement<I, O, F>)
        ensures
            r.spec_name() == name@,
            r.spec_function() == f,
    {
        MapElement { name: String::from_str(name), f, _phantom: PhantomData }
    }

    /// The element's name.
    pub fn name(&self) -> (r: &str)
        ensures
            r@ == self.spec_name(),
    {
        self.name.as_str()
    }

    /// The transformation, to be applied to each payload.
    pub fn function_mut(&mut self) -> (r: &mut F)
        ensures
            *r == old(self).spec_function(),
            final(self).spec_function() == *final(r),
            final(self).spec_name() == old(self).spec_name(),
    {
        &mut self.f
    }

    /// Hands the frame on with its payload transformed and its metadata kept.
    pub fn process_frame(&mut self, frame: Frame<I>) -> (r: Option<Frame<O>>)
        requires
            call_requires(old(self).spec_function(), (frame.payload,)),
        ensures
            final(self).spec_name() == old(self).spec_name(),
            r matches Some(out) && out.metadata == frame.metadata && call_ensures(
                old(self).spec_function(),
                (frame.payload,),
                out.payload,
            ),
    {
        let Frame { metadata, payload } = frame;
        let out = (self.f)(payload);
        Some(Frame::with_metadata(metadata, out))
    }
}

/// An element that drops the frames whose payload fails a predicate.
#[verifier::reject_recursive_types(T)]
pub struct FilterElement<T, F> where F: FnMut(&T) -> bool + Send + Sync {
    name: String,
    predicate: F,
    _phantom: PhantomData<T>,
}

impl<T, F> FilterElement<T, F> where F: FnMut(&T) -> bool + Send + Sync {
    /// The element's name.
    pub closed spec fn spec_name(&self) -> Seq<char> {
        self.name@
    }

    /// The element's predicate.
    pub closed spec fn spec_predicate(&self) -> F {
        self.predicate
    }

    /// A filter element with the given name and predicate.
    pub fn new(name: &str, predicate: F) -> (r: FilterElement<T, F>)
        ensures
            r.spec_name() == name@,
            r.spec_predicate() == predicate,
    {
        FilterElement { name: String::from_str(name), predicate, _phantom: PhantomData }
    }

    /// The element's name.
    pub fn name(&self) -> (r: &str)
        ensures
            r@ == self.spec_name(),
    {
        self.name.as_str()
    }

    /// The predicate, to be applied to each payload.
    pub fn predicate_mut(&mut self) -> (r: &mut F)
        ensures
            *r == old(self).spec_predicate(),
            final(self).spec_predicate() == *final(r),
            final(self).spec_name() == old(self).spec_name(),
    {
        &mut self.predicate
    }

    /// Keeps the frame when the predicate holds of its payload.
    pub fn process_frame(&mut self, frame: Frame<T>) -> (r: Option<Frame<T>>)
        requires
            call_requires(old(self).spec_predicate(), (&frame.payload,)),
        ensures
            final(self).spec_name() == old(self).spec_name(),
            r is Some ==> r == Some(frame),
            exists|keep: bool| call_ensures(old(self).spec_predicate(), (&frame.payload,), keep) && (keep <==> r is Some),
    {
        let keep = (self.predicate)(&frame.payload);
        if keep {
            Some(frame)
        } else {
            None
        }
    }
}

} // verus!
