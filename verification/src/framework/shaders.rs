//! Effects: the shader stages that a pipeline is built from.

use vstd::prelude::*;

verus! {

/// The stages of a pipeline. `S` is a handle to the entry point of a
/// compiled shader.
pub struct Effect<S> {
    pub vertex: S,
    pub tess_control: Option<S>,
    pub tess_evaluation: Option<S>,
    pub fragment: S,
}

impl<S> Effect<S> {
    /// Starts an effect with the two stages that every effect has.
    pub fn builder(vertex_shader: S, fragment_shader: S) -> (builder: EffectBuilder<S>)
        ensures
            builder.vertex() == vertex_shader,
            builder.fragment() == fragment_shader,
            builder.tess_control() is None,
            builder.tess_evaluation() is None,
    {
        EffectBuilder::new(vertex_shader, fragment_shader)
    }

    /// Whether the effect tessellates: it does if it has both tessellation
    /// stages.
    pub fn is_tesselation(&self) -> (tessellates: bool)
        ensures
            tessellates == (self.tess_control is Some && self.tess_evaluation is Some),
    {
        self.tess_control.is_some() && self.tess_evaluation.is_some()
    }
}

/// Collects the stages of an effect.
pub struct EffectBuilder<S> {
    vertex: S,
    tess_control: Option<S>,
    tess_evaluation: Option<S>,
    fragment: S,
}

impl<S> EffectBuilder<S> {
    /// The vertex stage.
    pub closed spec fn vertex(&self) -> S {
        self.vertex
    }

    /// The tessellation control stage, if one was given.
    pub closed spec fn tess_control(&self) -> Option<S> {
        self.tess_control
    }

    /// The tessellation evaluation stage, if one was given.
    pub closed spec fn tess_evaluation(&self) -> Option<S> {
        self.tess_evaluation
    }

    /// The fragment stage.
    pub closed spec fn fragment(&self) -> S {
        self.fragment
    }

    /// A builder with the two stages that every effect has.
    pub fn new(vertex_shader: S, fragment_shader: S) -> (builder: EffectBuilder<S>)
        ensures
            builder.vertex() == vertex_shader,
            builder.fragment() == fragment_shader,
            builder.tess_control() is None,
            builder.tess_evaluation() is None,
    {
        EffectBuilder {
            vertex: vertex_shader,
            fragment: fragment_shader,
            tess_control: None,
            tess_evaluation: None,
        }
    }

    /// Sets the tessellation control stage.
    pub fn tesselation_control_shader(self, shader: S) -> (builder: EffectBuilder<S>)
        ensures
            builder.tess_control() == Some(shader),
            builder.vertex() == self.vertex(),
            builder.tess_evaluation() == self.tess_evaluation(),
            builder.fragment() == self.fragment(),
    {
        EffectBuilder {
            vertex: self.vertex,
            tess_control: Some(shader),
            tess_evaluation: self.tess_evaluation,
            fragment: self.fragment,
        }
    }

    /// Sets the tessellation evaluation stage.
    pub fn tesselation_evaluation_shader(self, shader: S) -> (builder: EffectBuilder<S>)
        ensures
            builder.tess_evaluation() == Some(shader),
            builder.vertex() == self.vertex(),
            builder.tess_control() == self.tess_control(),
            builder.fragment() == self.fragment(),
    {
        EffectBuilder {
            vertex: self.vertex,
            tess_control: self.tess_control,
            tess_evaluation: Some(shader),
            fragment: self.fragment,
        }
    }

    /// The effect of the stages given.
    pub fn build(self) -> (effect: Effect<S>)
        ensures
            effect.vertex == self.vertex(),
            effect.tess_control == self.tess_control(),
            effect.tess_evaluation == self.tess_evaluation(),
            effect.fragment == self.fragment(),
    {
        Effect {
            vertex: self.vertex,
            tess_control: self.tess_control,
            tess_evaluation: self.tess_evaluation,
            fragment: self.fragment,
        }
    }
}

} // verus!
