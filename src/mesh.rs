//! A range of the vertices of a vertex array, drawn with a shader program.
use vstd::prelude::*;
use crate::errors::OwlError;
use crate::oxidised_bindings::{self as ox, all_reported, OxError, Step};
use crate::oxidised_bindings::VertexArray as VertexArrayName;
use crate::safe_bindings::{DrawMode, Error, GlCall, IndexType};
use crate::shaders::{use_failure_message, Program};
use crate::traits::ToByteVec;
use crate::vertex_arrays::VertexArray;

verus! {

/// `count` vertices of `vertex_array` from vertex `start` on: indices from its element buffer
/// when it has one, its arrays' vertices otherwise.
pub struct Mesh<'a, E: ToByteVec> {
    pub start: usize,
    pub count: usize,
    pub vertex_array: &'a VertexArray<E>,
}

/// The message for an error reported by a draw call.
pub open spec fn draw_failure_message(e: OxError) -> Seq<char> {
    match e {
        OxError::BaseError(Error::InvalidOperation) =>
            "either one of the buffers used is being mapped, or the geometry shader's input primitive is incompatible with the draw mode"@,
        _ => "no other errors should be produced"@,
    }
}

/// Where a [`MeshDraw`] stands: the call last made.
#[derive(Clone, Copy, Debug, PartialEq, Eq, Hash, Structural)]
pub enum DrawStage {
    UsingProgram,
    BindingArray,
    Drawing,
}

/// Drawing a mesh: installing the program, binding the vertex array, then the draw call.
#[derive(Clone, Copy, Debug, PartialEq, Eq, Hash, Structural)]
pub struct MeshDraw {
    pub stage: DrawStage,
    pub array: VertexArrayName,
    pub mode: DrawMode,
    pub start: usize,
    pub count: usize,
    pub index_type: Option<IndexType>,
}

impl MeshDraw {
    /// The draw call: elements when there is an index type, arrays otherwise.
    pub open spec fn spec_draw_call(self) -> GlCall {
        match self.index_type {
            Some(index_type) => GlCall::DrawElements {
                mode: self.mode.spec_gl_enum(),
                count: self.count as i32,
                index_type: index_type.spec_gl_enum(),
                offset: self.start,
            },
            None => GlCall::DrawArrays { mode: self.mode.spec_gl_enum(), first: self.start as i32, count: self.count as i32 },
        }
    }

    fn draw_call(self) -> (r: GlCall)
        requires
            self.index_type is None ==> self.start <= i32::MAX,
            self.count <= i32::MAX,
        ensures
            r == self.spec_draw_call(),
    {
        match self.index_type {
            Some(index_type) => ox::draw_elements(self.mode, self.count, index_type, self.start),
            None => ox::draw_arrays(self.mode, self.start, self.count),
        }
    }
}

impl<'a, E: ToByteVec> Mesh<'a, E> {
    /// Starts drawing the mesh in `mode` with `shader_program`: the returned call installs the
    /// program. [`MeshDraw::resume`] takes it from there.
    pub fn draw(&self, mode: DrawMode, shader_program: &Program) -> (r: (MeshDraw, GlCall))
        requires
            self.vertex_array.spec_index_type() is None ==> self.start <= i32::MAX,
            self.count <= i32::MAX,
        ensures
            r.0 == (MeshDraw {
                stage: DrawStage::UsingProgram,
                array: self.vertex_array.spec_name(),
                mode,
                start: self.start,
                count: self.count,
                index_type: self.vertex_array.spec_index_type(),
            }),
            r.1 == (GlCall::UseProgram { program: shader_program.spec_name().0 }),
    {
        let index_type = match self.vertex_array.elements() {
            Some(e) => Some(e.index_type()),
            None => None,
        };
        (
            MeshDraw {
                stage: DrawStage::UsingProgram,
                array: self.vertex_array.name(),
                mode,
                start: self.start,
                count: self.count,
                index_type,
            },
            shader_program.use_self(),
        )
    }
}

impl MeshDraw {
    /// Takes the errors reported after the last call. An error installing the program or
    /// drawing ends the draw with that error, explained and inside its context; binding a
    /// vertex array that exists cannot fail.
    pub fn resume(self, errors: &Vec<u32>) -> (r: Step<MeshDraw, Result<(), OwlError>>)
        requires
            all_reported(errors@),
            self.stage == DrawStage::BindingArray ==> errors@.len() == 0,
            self.index_type is None ==> self.start <= i32::MAX,
            self.count <= i32::MAX,
        ensures
            self.stage == DrawStage::UsingProgram && errors@.len() > 0 ==> (r matches Step::Done(Err(o))
                && o.spec_message() == use_failure_message(ox::last_base_error(errors@)) + ", "@ + ox::last_base_error(errors@).spec_message()
                && o.spec_context() == "drawing mesh"@ + ", "@ + "using program failed"@),
            self.stage == DrawStage::UsingProgram && errors@.len() == 0 ==> (r matches Step::Call(next, call)
                && next == (MeshDraw { stage: DrawStage::BindingArray, ..self })
                && call == ox::spec_bind_vertex_array(Some(self.array))),
            self.stage == DrawStage::BindingArray ==> (r matches Step::Call(next, call)
                && next == (MeshDraw { stage: DrawStage::Drawing, ..self })
                && call == self.spec_draw_call()),
            self.stage == DrawStage::Drawing && errors@.len() == 0 ==> r matches Step::Done(Ok(_)),
            self.stage == DrawStage::Drawing && errors@.len() > 0 ==> (r matches Step::Done(Err(o))
                && o.spec_message() == draw_failure_message(ox::last_base_error(errors@)) + ", "@ + ox::last_base_error(errors@).spec_message()
                && o.spec_context() == "drawing mesh, element draw failed"@),
    {
        match self.stage {
            DrawStage::UsingProgram => match Program::used(errors) {
                Err(o) => {
                    proof {
                        reveal_strlit("using program failed");
                    }
                    Step::Done(Err(o.with_context("drawing mesh")))
                },
                Ok(()) => Step::Call(MeshDraw { stage: DrawStage::BindingArray, ..self }, ox::bind_vertex_array(Some(self.array))),
            },
            DrawStage::BindingArray => Step::Call(MeshDraw { stage: DrawStage::Drawing, ..self }, self.draw_call()),
            DrawStage::Drawing => match ox::last_error(errors) {
                None => Step::Done(Ok(())),
                Some(e) => {
                    let message = match e {
                        OxError::BaseError(Error::InvalidOperation) =>
                            "either one of the buffers used is being mapped, or the geometry shader's input primitive is incompatible with the draw mode",
                        _ => "no other errors should be produced",
                    };
                    Step::Done(Err(e.with_message(message).with_context("drawing mesh, element draw failed")))
                },
            },
        }
    }
}

} // verus!
