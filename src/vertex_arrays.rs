//! Vertex array objects and the inputs they feed to the vertex stage.
use vstd::prelude::*;
use crate::buffers::{ArrayBuffer, ElementBuffer};
use crate::errors::OwlError;
use crate::oxidised_bindings::{self as ox, VertexArray as VertexArrayName};
use crate::safe_bindings::{BufferType, GlCall};
use crate::shaders::{self, Input, MatInputAttributePointer, ThinInputAttribute};
use crate::traits::{Bytes, ToByteVec};

verus! {

/// Where the data of a vertex input is: in `buffer`, items `stride` bytes apart, the first
/// `offset` bytes in.
#[derive(Debug)]
pub struct AttributePointer<'a, T: ToByteVec> {
    pub buffer: &'a ArrayBuffer<T>,
    pub stride: Bytes,
    pub offset: Bytes,
}


/// The calls that enable the attribute arrays at locations `from` up to `from + count`.
pub open spec fn spec_enable_calls(from: u8, count: nat) -> Seq<GlCall> {
    Seq::new(count, |i: int| GlCall::EnableVertexAttribArray { index: (from + i) as u32 })
}

/// The inputs of a vertex array, and how many of its attribute locations they take out of
/// the number it has.
#[derive(Debug)]
pub struct InputArray {
    container: Vec<Input>,
    capacity: u8,
    length: u8,
}

impl InputArray {
    /// The number of locations the inputs take never exceeds the number there are.
    pub closed spec fn wf(&self) -> bool {
        self.length <= self.capacity
    }

    pub closed spec fn spec_capacity(&self) -> u8 {
        self.capacity
    }

    pub closed spec fn spec_length(&self) -> u8 {
        self.length
    }

    pub closed spec fn spec_inputs(&self) -> Seq<Input> {
        self.container@
    }

    /// No inputs yet, out of `capacity` locations.
    pub fn new(capacity: u8) -> (r: InputArray)
        ensures
            r.wf(),
            r.spec_capacity() == capacity,
            r.spec_length() == 0,
            r.spec_inputs().len() == 0,
    {
        InputArray { container: Vec::with_capacity(capacity as usize), capacity, length: 0 }
    }

    /// The inputs, in the order they were added.
    pub fn inputs(&self) -> (r: &Vec<Input>)
        ensures
            r@ == self.spec_inputs(),
    {
        &self.container
    }

    /// The number of locations the inputs take.
    pub fn length(&self) -> (r: u8)
        ensures
            r == self.spec_length(),
    {
        self.length
    }

    /// The number of locations there are.
    pub fn capacity(&self) -> (r: u8)
        ensures
            r == self.spec_capacity(),
    {
        self.capacity
    }

    /// Adds a one-location input at the first free location; the returned calls point it at
    /// its data and enable it. Fails, changing nothing, when no location is free.
    pub fn push<T: ToByteVec>(&mut self, attribute: ThinInputAttribute, pointer: AttributePointer<'_, T>) -> (r: Result<Vec<GlCall>, OwlError>)
        requires
            old(self).wf(),
            pointer.stride.0 <= i32::MAX,
            pointer.offset.0 <= i32::MAX,
        ensures
            final(self).wf(),
            final(self).spec_capacity() == old(self).spec_capacity(),
            old(self).spec_length() >= old(self).spec_capacity() ==> (*final(self) == *old(self)
                && (r matches Err(e) && e.spec_message() == "maximum inputs reached"@ && e.spec_context().len() == 0)),
            old(self).spec_length() < old(self).spec_capacity() ==> (r matches Ok(calls) && {
                let input = final(self).spec_inputs().last();
                &&& final(self).spec_length() == old(self).spec_length() + 1
                &&& final(self).spec_inputs().drop_last() == old(self).spec_inputs()
                &&& final(self).spec_inputs().len() == old(self).spec_inputs().len() + 1
                &&& input.spec_index() == old(self).spec_length()
                &&& input.spec_name() == attribute.spec_name()
                &&& input.spec_glsl_type() == attribute.spec_glsl_type()
                &&& calls@ == shaders::spec_pointer_calls(
                        shaders::spec_thin_pointer_call(old(self).spec_length(), attribute, pointer), pointer)
                        + spec_enable_calls(old(self).spec_length(), 1)
            }),
    {
        if self.length >= self.capacity {
            Err(OwlError::custom("maximum inputs reached"))
        } else {
            let (input, mut calls) = Input::new_thin(self.length, attribute, pointer);
            let ghost described = calls@;
            calls.push(ox::enable_vertex_attrib_array(self.length));
            assert(calls@ =~= described + spec_enable_calls(self.length, 1));
            self.container.push(input);
            assert(self.container@.drop_last() =~= old(self).container@);
            self.length = self.length + 1;
            Ok(calls)
        }
    }

    /// Adds a matrix input at the first free locations, one per column; the returned calls
    /// point each column at its data and enable each location. Fails, changing nothing, when
    /// too few locations are free.
    pub fn push_mat<T: ToByteVec>(&mut self, attribute_pointer: MatInputAttributePointer<'_, T>) -> (r: Result<Vec<GlCall>, OwlError>)
        requires
            old(self).wf(),
            shaders::pointers_fit(attribute_pointer.spec_pointers()),
        ensures
            final(self).wf(),
            final(self).spec_capacity() == old(self).spec_capacity(),
            old(self).spec_length() + attribute_pointer.spec_size() > old(self).spec_capacity() ==> (*final(self) == *old(self)
                && (r matches Err(e) && e.spec_message() == "maximum inputs reached"@ && e.spec_context().len() == 0)),
            old(self).spec_length() + attribute_pointer.spec_size() <= old(self).spec_capacity() ==> (r matches Ok(calls) && {
                let input = final(self).spec_inputs().last();
                &&& final(self).spec_length() == old(self).spec_length() + attribute_pointer.spec_size()
                &&& final(self).spec_inputs().drop_last() == old(self).spec_inputs()
                &&& final(self).spec_inputs().len() == old(self).spec_inputs().len() + 1
                &&& input.spec_index() == old(self).spec_length()
                &&& input.spec_name() == attribute_pointer.spec_name()
                &&& input.spec_glsl_type() == attribute_pointer.spec_glsl_type()
                &&& calls@ == shaders::spec_column_calls(old(self).spec_length(),
                        attribute_pointer.spec_column_format(), attribute_pointer.spec_pointers())
                        + spec_enable_calls(old(self).spec_length(), attribute_pointer.spec_size() as nat)
            }),
    {
        let size = attribute_pointer.size();
        if self.length as u16 + size as u16 > self.capacity as u16 {
            Err(OwlError::custom("maximum inputs reached"))
        } else {
            let new_length: u8 = self.length + size;
            let (input, mut calls) = Input::new_mat(self.length, attribute_pointer);
            let ghost columns = calls@;
            let mut index: u8 = self.length;
            while index < new_length
                invariant
                    old(self).length <= index <= new_length,
                    self.length == old(self).length,
                    calls@ == columns + spec_enable_calls(self.length, (index - self.length) as nat),
                decreases new_length - index,
            {
                calls.push(ox::enable_vertex_attrib_array(index));
                assert(calls@ =~= columns + spec_enable_calls(self.length, (index + 1 - self.length) as nat));
                index = index + 1;
            }
            self.container.push(input);
            assert(self.container@.drop_last() =~= old(self).container@);
            self.length = new_length;
            Ok(calls)
        }
    }
}

/// A vertex array object: the inputs of the vertex stage and, optionally, the element buffer
/// its indices come from.
#[derive(Debug)]
pub struct VertexArray<E: ToByteVec> {
    inner: VertexArrayName,
    inputs: InputArray,
    elements: Option<ElementBuffer<E>>,
}

impl<E: ToByteVec> VertexArray<E> {
    pub closed spec fn wf(&self) -> bool {
        self.inputs.wf()
    }

    pub closed spec fn spec_name(&self) -> VertexArrayName {
        self.inner
    }

    pub closed spec fn spec_inputs(&self) -> InputArray {
        self.inputs
    }

    pub closed spec fn spec_elements_id(&self) -> Option<ox::Buffer> {
        match self.elements {
            Some(e) => Some(e.spec_id()),
            None => None,
        }
    }

    pub closed spec fn spec_index_type(&self) -> Option<crate::safe_bindings::IndexType> {
        match self.elements {
            Some(e) => Some(e.spec_index_type()),
            None => None,
        }
    }

    /// A vertex array with no inputs, from the name the driver gave and the number of
    /// attribute locations it reported (`GL_MAX_VERTEX_ATTRIBS`, at least 16 and in practice
    /// 16 to 32).
    pub fn new(inner: VertexArrayName, max_vertex_attribs: u32) -> (r: VertexArray<E>)
        requires
            max_vertex_attribs <= u8::MAX,
        ensures
            r.wf(),
            r.spec_name() == inner,
            r.spec_inputs().spec_capacity() == max_vertex_attribs,
            r.spec_inputs().spec_length() == 0,
            r.spec_inputs().spec_inputs().len() == 0,
            r.spec_index_type() is None,
            r.spec_elements_id() is None,
    {
        VertexArray { inner, inputs: InputArray::new(max_vertex_attribs as u8), elements: None }
    }

    /// The name of the vertex array.
    pub fn name(&self) -> (r: VertexArrayName)
        ensures
            r == self.spec_name(),
    {
        self.inner
    }

    /// The inputs added so far.
    pub fn inputs(&self) -> (r: &InputArray)
        ensures
            *r == self.spec_inputs(),
    {
        &self.inputs
    }

    /// The element buffer, when indices were given.
    pub fn elements(&self) -> (r: &Option<ElementBuffer<E>>)
        ensures
            match *r {
                Some(e) => self.spec_index_type() == Some(e.spec_index_type()),
                None => self.spec_index_type() is None,
            },
    {
        &self.elements
    }

    /// The same vertex array, drawing with the indices in `buffer`: the returned calls bind
    /// the vertex array and then the buffer, which records it in the vertex array.
    pub fn with_indices(self, buffer: ElementBuffer<E>) -> (r: (VertexArray<E>, Vec<GlCall>))
        requires
            self.wf(),
        ensures
            r.0.wf(),
            r.0.spec_name() == self.spec_name(),
            r.0.spec_inputs() == self.spec_inputs(),
            r.0.spec_index_type() == Some(buffer.spec_index_type()),
            r.0.spec_elements_id() == Some(buffer.spec_id()),
            r.1@ == seq![
                ox::spec_bind_vertex_array(Some(self.spec_name())),
                ox::spec_bind_buffer(BufferType::ElementArray, Some(buffer.spec_id())),
            ],
    {
        let calls = vec![self.bind(), buffer.bind()];
        (VertexArray { inner: self.inner, inputs: self.inputs, elements: Some(buffer) }, calls)
    }

    /// The same vertex array with one more one-location input: the returned calls bind the
    /// vertex array, then point the input at its data and enable it. Fails when no location
    /// is free.
    pub fn with_input<U: ToByteVec>(self, attribute: ThinInputAttribute, pointer: AttributePointer<'_, U>) -> (r: Result<(VertexArray<E>, Vec<GlCall>), OwlError>)
        requires
            self.wf(),
            pointer.stride.0 <= i32::MAX,
            pointer.offset.0 <= i32::MAX,
        ensures
            self.spec_inputs().spec_length() >= self.spec_inputs().spec_capacity() ==>
                (r matches Err(e) && e.spec_message() == "maximum inputs reached"@),
            self.spec_inputs().spec_length() < self.spec_inputs().spec_capacity() ==> (r matches Ok((v, calls))
                && v.wf() && v.spec_name() == self.spec_name()
                && v.spec_index_type() == self.spec_index_type()
                && v.spec_inputs().spec_length() == self.spec_inputs().spec_length() + 1
                && v.spec_inputs().spec_inputs().drop_last() == self.spec_inputs().spec_inputs()
                && v.spec_inputs().spec_inputs().len() == self.spec_inputs().spec_inputs().len() + 1
                && v.spec_inputs().spec_inputs().last().spec_index() == self.spec_inputs().spec_length()
                && v.spec_inputs().spec_inputs().last().spec_name() == attribute.spec_name()
                && v.spec_inputs().spec_inputs().last().spec_glsl_type() == attribute.spec_glsl_type()
                && calls@ == seq![ox::spec_bind_vertex_array(Some(self.spec_name()))]
                    + shaders::spec_pointer_calls(
                        shaders::spec_thin_pointer_call(self.spec_inputs().spec_length(), attribute, pointer), pointer)
                    + spec_enable_calls(self.spec_inputs().spec_length(), 1)),
    {
        let mut inputs = self.inputs;
        let bind = ox::bind_vertex_array(Some(self.inner));
        match inputs.push(attribute, pointer) {
            Err(e) => Err(e),
            Ok(pushed) => {
                let mut calls = vec![bind];
                let mut pushed = pushed;
                let ghost p = pushed@;
                calls.append(&mut pushed);
                assert(calls@ =~= seq![bind] + p);
                Ok((VertexArray { inner: self.inner, inputs, elements: self.elements }, calls))
            },
        }
    }

    /// The same vertex array with one more matrix input: the returned calls bind the vertex
    /// array, then point each column at its data and enable its location. Fails when too few
    /// locations are free.
    pub fn with_input_mat<U: ToByteVec>(self, attribute: MatInputAttributePointer<'_, U>) -> (r: Result<(VertexArray<E>, Vec<GlCall>), OwlError>)
        requires
            self.wf(),
            shaders::pointers_fit(attribute.spec_pointers()),
        ensures
            self.spec_inputs().spec_length() + attribute.spec_size() > self.spec_inputs().spec_capacity() ==>
                (r matches Err(e) && e.spec_message() == "maximum inputs reached"@),
            self.spec_inputs().spec_length() + attribute.spec_size() <= self.spec_inputs().spec_capacity() ==> (r matches Ok((v, calls))
                && v.wf() && v.spec_name() == self.spec_name()
                && v.spec_index_type() == self.spec_index_type()
                && v.spec_inputs().spec_length() == self.spec_inputs().spec_length() + attribute.spec_size()
                && v.spec_inputs().spec_inputs().drop_last() == self.spec_inputs().spec_inputs()
                && v.spec_inputs().spec_inputs().len() == self.spec_inputs().spec_inputs().len() + 1
                && v.spec_inputs().spec_inputs().last().spec_index() == self.spec_inputs().spec_length()
                && v.spec_inputs().spec_inputs().last().spec_name() == attribute.spec_name()
                && v.spec_inputs().spec_inputs().last().spec_glsl_type() == attribute.spec_glsl_type()
                && calls@ == seq![ox::spec_bind_vertex_array(Some(self.spec_name()))]
                    + shaders::spec_column_calls(self.spec_inputs().spec_length(), attribute.spec_column_format(), attribute.spec_pointers())
                    + spec_enable_calls(self.spec_inputs().spec_length(), attribute.spec_size() as nat)),
    {
        let mut inputs = self.inputs;
        let bind = ox::bind_vertex_array(Some(self.inner));
        match inputs.push_mat(attribute) {
            Err(e) => Err(e),
            Ok(pushed) => {
                let mut calls = vec![bind];
                let mut pushed = pushed;
                let ghost p = pushed@;
                calls.append(&mut pushed);
                assert(calls@ =~= seq![bind] + p);
                Ok((VertexArray { inner: self.inner, inputs, elements: self.elements }, calls))
            },
        }
    }

    /// Binds the vertex array.
    pub fn bind(&self) -> (r: GlCall)
        ensures
            r == ox::spec_bind_vertex_array(Some(self.spec_name())),
    {
        ox::bind_vertex_array(Some(self.inner))
    }

    /// Leaves no vertex array bound.
    pub fn unbind() -> (r: GlCall)
        ensures
            r == ox::spec_bind_vertex_array(None),
    {
        ox::bind_vertex_array(None)
    }

    /// Gives the vertex array back: the returned calls delete it, then its element buffer if
    /// it has one.
    pub fn delete(self) -> (r: Vec<GlCall>)
        ensures
            r@.len() >= 1,
            r@[0] matches GlCall::DeleteVertexArrays { names } && names@ == seq![self.spec_name().0],
            self.spec_elements_id() is None ==> r@.len() == 1,
            self.spec_elements_id() matches Some(id) ==> r@.len() == 2 && ox::is_delete_buffer_call(r@[1], id),
    {
        let mut calls = vec![ox::delete_vertex_array(self.inner)];
        match self.elements {
            Some(e) => calls.push(e.delete()),
            None => {},
        }
        calls
    }
}

} // verus!
