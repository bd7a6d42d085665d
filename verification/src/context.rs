//! The stack of drawing states that is kept while a frame is walked.

use vstd::prelude::*;
use crate::backend::{annotations_view, Annotation, AnnotationView};
use crate::geometry::{Size, Transform};

verus! {

/// The transforms in force at one point of the walk.
#[derive(Clone, Copy, PartialEq, Eq, Structural, Debug)]
pub struct State {
    /// The map from the current item to the page.
    pub transform_chain: Transform,
    /// The map of the current item, as gathered on the way to it.
    pub transform: Transform,
    /// The map from the nearest hard frame to the page.
    pub container_transform_chain: Transform,
    /// The size of the nearest hard frame.
    pub size: Size,
}

/// What a paint needs to know of the place where it is used.
#[derive(Clone, Copy, PartialEq, Eq, Structural, Debug)]
pub struct Transforms {
    /// The map from the item to the page.
    pub transform_chain_: Transform,
    /// The map of the item.
    pub transform_: Transform,
    /// The map from the nearest hard frame to the page.
    pub container_transform_chain: Transform,
    /// The size of the nearest hard frame.
    pub container_size: Size,
    /// The size of the item.
    pub size: Size,
}

impl State {
    /// The state at the top of a container of the given size.
    pub open spec fn spec_new(
        size: Size,
        transform_chain: Transform,
        container_transform_chain: Transform,
    ) -> State {
        State {
            transform_chain,
            transform: Transform::spec_identity(),
            container_transform_chain,
            size,
        }
    }

    /// The state with `size` as the size of the container.
    pub open spec fn spec_size(self, size: Size) -> State {
        State { size, ..self }
    }

    /// The state after `transform` is applied before what was gathered.
    pub open spec fn spec_transform(self, transform: Transform) -> State {
        State {
            transform: self.transform.spec_pre_concat(transform),
            transform_chain: self.transform_chain.spec_pre_concat(transform),
            ..self
        }
    }

    /// The state with the current place as the origin of the container.
    pub open spec fn spec_set_container_transform(self) -> State {
        State { container_transform_chain: self.transform_chain, ..self }
    }

    /// The transforms of an item of the given size in this state.
    pub open spec fn spec_transforms(self, size: Size) -> Transforms {
        Transforms {
            transform_chain_: self.transform_chain,
            transform_: self.transform,
            container_transform_chain: self.container_transform_chain,
            container_size: self.size,
            size,
        }
    }

    /// Creates the state at the top of a container of the given size.
    pub fn new(size: Size, transform_chain: Transform, container_transform_chain: Transform) -> (s:
        State)
        ensures
            s == State::spec_new(size, transform_chain, container_transform_chain),
    {
        State {
            transform_chain,
            transform: Transform::identity(),
            container_transform_chain,
            size,
        }
    }

    /// Sets the size of the container.
    pub fn size(&mut self, size: Size)
        ensures
            *final(self) == old(self).spec_size(size),
    {
        self.size = size;
    }

    /// Applies `transform` before what was gathered so far, both to the map
    /// of the item and to the map to the page.
    pub fn transform(&mut self, transform: Transform)
        ensures
            *final(self) == old(self).spec_transform(transform),
    {
        self.transform = self.transform.pre_concat(transform);
        self.transform_chain = self.transform_chain.pre_concat(transform);
    }

    /// Makes the current place the origin of the container.
    pub fn set_container_transform(&mut self)
        ensures
            *final(self) == old(self).spec_set_container_transform(),
    {
        self.container_transform_chain = self.transform_chain;
    }

    /// The transforms of an item of the given size in this state.
    pub fn transforms(&self, size: Size) -> (t: Transforms)
        ensures
            t == self.spec_transforms(size),
    {
        Transforms {
            transform_chain_: self.transform_chain,
            transform_: self.transform,
            container_transform_chain: self.container_transform_chain,
            container_size: self.size,
            size,
        }
    }
}

/// The states of the frames and items that are open, innermost last, and
/// the links met on the page so far.
pub struct FrameContext {
    pub states: Vec<State>,
    pub annotations: Vec<Annotation>,
}

impl FrameContext {
    /// A context always holds a state.
    pub open spec fn wf(&self) -> bool {
        self.states@.len() >= 1
    }

    /// The innermost state.
    pub open spec fn top(&self) -> State
        recommends
            self.wf(),
    {
        self.states@.last()
    }

    /// The links met so far.
    pub open spec fn links(&self) -> Seq<AnnotationView> {
        annotations_view(self.annotations@)
    }

    /// Creates the context of a page of the given size: one state, with
    /// identity maps and the page as the container, and no links.
    pub fn new(size: Size) -> (fc: FrameContext)
        ensures
            fc.wf(),
            fc.states@ == seq![
                State::spec_new(size, Transform::spec_identity(), Transform::spec_identity()),
            ],
            fc.annotations@.len() == 0,
    {
        let mut states: Vec<State> = Vec::new();
        states.push(State::new(size, Transform::identity(), Transform::identity()));
        FrameContext { states, annotations: Vec::new() }
    }

    /// Opens a state that starts as a copy of the innermost one.
    pub fn push(&mut self)
        requires
            old(self).wf(),
        ensures
            final(self).states@ == old(self).states@.push(old(self).top()),
            final(self).annotations == old(self).annotations,
    {
        let top: State = self.states[self.states.len() - 1];
        self.states.push(top);
    }

    /// Closes the innermost state. The outermost state stays.
    pub fn pop(&mut self)
        requires
            old(self).states@.len() >= 2,
        ensures
            final(self).states@ == old(self).states@.drop_last(),
            final(self).annotations == old(self).annotations,
    {
        self.states.pop();
    }

    /// The innermost state.
    pub fn state(&self) -> (s: &State)
        requires
            self.wf(),
        ensures
            *s == self.top(),
    {
        &self.states[self.states.len() - 1]
    }

    /// The innermost state, to be changed in place.
    pub fn state_mut(&mut self) -> (s: &mut State)
        requires
            old(self).wf(),
        ensures
            *s == old(self).top(),
            final(self).states@ == old(self).states@.drop_last().push(*final(s)),
            final(self).annotations == old(self).annotations,
    {
        let last: usize = self.states.len() - 1;
        &mut self.states[last]
    }
}

} // verus!
