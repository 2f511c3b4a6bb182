//! Buffers that own their GL name and know the type of the items they store.
//!
//! Creating or updating a buffer takes several calls: the buffer is bound, then its data is
//! given. The binding cannot fail on a buffer that has not been deleted, so the outcome is
//! decided by the errors reported after the last call.
use vstd::prelude::*;
use std::marker::PhantomData;
use crate::errors::OwlError;
use crate::oxidised_bindings::{self as ox, all_reported, OxError};
use crate::safe_bindings::{BufferType, BufferUsage, Error, GlCall, IndexType};
use crate::traits::ToByteVec;

verus! {

/// The message for an error reported while updating a buffer's data: an invalid value means
/// the write runs past the buffer's end, an invalid operation that the buffer is mapped.
pub open spec fn update_failure_message(e: OxError) -> Seq<char> {
    match e {
        OxError::BaseError(Error::InvalidValue) => "offset + data length > buffer size"@,
        OxError::BaseError(Error::InvalidOperation) => "buffer is being mapped"@,
        _ => "no other errors should be produced"@,
    }
}

/// The outcome of an update, from the errors reported after its last call.
fn update_result(errors: &Vec<u32>, context: &str) -> (r: Result<(), OwlError>)
    requires
        all_reported(errors@),
    ensures
        errors@.len() == 0 ==> r is Ok,
        errors@.len() > 0 ==> (r matches Err(o)
            && o.spec_message() == update_failure_message(ox::last_base_error(errors@)) + ", "@ + ox::last_base_error(errors@).spec_message()
            && o.spec_context() == context@),
{
    match ox::last_error(errors) {
        None => Ok(()),
        Some(e) => {
            let message = match e {
                OxError::BaseError(Error::InvalidValue) => "offset + data length > buffer size",
                OxError::BaseError(Error::InvalidOperation) => "buffer is being mapped",
                _ => "no other errors should be produced",
            };
            let o = e.with_message(message).with_context(context);
            Err(o)
        },
    }
}

/// A buffer bound to the `ARRAY_BUFFER` target, holding items of type `T`.
#[derive(Debug)]
pub struct ArrayBuffer<T: ToByteVec> {
    id: ox::Buffer,
    marker: PhantomData<T>,
}

impl<T: ToByteVec> ArrayBuffer<T> {
    pub closed spec fn spec_id(&self) -> ox::Buffer {
        self.id
    }

    /// The buffer's name.
    pub fn id(&self) -> (r: ox::Buffer)
        ensures
            r == self.spec_id(),
    {
        self.id
    }

    /// Makes the buffer `id` (a name the driver gave) an array buffer holding `data`: the
    /// returned calls bind it and give it the data. [`ArrayBuffer::created`] decides the
    /// outcome from the errors after the last call.
    pub fn new(id: ox::Buffer, data: Vec<T>, usage: BufferUsage) -> (r: (ArrayBuffer<T>, Vec<GlCall>))
        ensures
            r.0.spec_id() == id,
            r.1@.len() == 2,
            r.1@[0] == ox::spec_bind_buffer(BufferType::Array, Some(id)),
            ox::is_buffer_data_call(r.1@[1], BufferType::Array, data, usage),
    {
        let created = ArrayBuffer { id, marker: PhantomData };
        let calls = vec![created.bind(), ox::buffer_data(BufferType::Array, data, usage)];
        (created, calls)
    }

    /// The buffer, unless the driver reported an error after its data was given (it can
    /// only be out of memory); then the error, with the call that deletes the buffer.
    pub fn created(self, errors: &Vec<u32>) -> (r: Result<ArrayBuffer<T>, (OwlError, GlCall)>)
        requires
            all_reported(errors@),
        ensures
            errors@.len() == 0 ==> (r matches Ok(b) && b.spec_id() == self.spec_id()),
            errors@.len() > 0 ==> (r matches Err((o, delete))
                && o.spec_message() == ox::last_base_error(errors@).spec_message() && o.spec_context() == "creating ArrayBuffer"@
                && ox::is_delete_buffer_call(delete, self.spec_id())),
    {
        match ox::last_error(errors) {
            None => Ok(self),
            Some(e) => {
                let o = e.with_context("creating ArrayBuffer");
                Err((o, self.delete()))
            },
        }
    }

    /// Overwrites the buffer's items from item `offset` on with `data`: the returned calls
    /// bind the buffer and write the data. [`ArrayBuffer::updated`] decides the outcome.
    pub fn update(&mut self, data: Vec<T>, offset: usize) -> (r: Vec<GlCall>)
        requires
            ox::subdata_byte_offset(data@, offset) <= isize::MAX,
        ensures
            *final(self) == *old(self),
            r@.len() == 2,
            r@[0] == ox::spec_bind_buffer(BufferType::Array, Some(old(self).spec_id())),
            ox::is_buffer_subdata_call(r@[1], BufferType::Array, data, offset),
    {
        vec![self.bind(), ox::buffer_subdata(BufferType::Array, data, offset)]
    }

    /// The outcome of an update, from the errors reported after its last call.
    pub fn updated(errors: &Vec<u32>) -> (r: Result<(), OwlError>)
        requires
            all_reported(errors@),
        ensures
            errors@.len() == 0 ==> r is Ok,
            errors@.len() > 0 ==> (r matches Err(o)
                && o.spec_message() == update_failure_message(ox::last_base_error(errors@)) + ", "@ + ox::last_base_error(errors@).spec_message()
                && o.spec_context() == "updating ArrayBuffer"@),
    {
        update_result(errors, "updating ArrayBuffer")
    }

    /// Binds this buffer to `ARRAY_BUFFER`.
    pub fn bind(&self) -> (r: GlCall)
        ensures
            r == ox::spec_bind_buffer(BufferType::Array, Some(self.spec_id())),
    {
        ox::bind_buffer(BufferType::Array, Some(self.id))
    }

    /// Leaves `ARRAY_BUFFER` unbound.
    pub fn unbind() -> (r: GlCall)
        ensures
            r == ox::spec_bind_buffer(BufferType::Array, None),
    {
        ox::bind_buffer(BufferType::Array, None)
    }

    /// Gives the buffer back: the returned call deletes it.
    pub fn delete(self) -> (r: GlCall)
        ensures
            ox::is_delete_buffer_call(r, self.spec_id()),
    {
        ox::delete_buffer(self.id)
    }
}

/// A buffer bound to the `ELEMENT_ARRAY_BUFFER` target, holding indices of type `T`.
#[derive(Debug)]
pub struct ElementBuffer<T: ToByteVec> {
    inner: ox::Buffer,
    inner_type: IndexType,
    marker: PhantomData<T>,
}

impl<T: ToByteVec> ElementBuffer<T> {
    pub closed spec fn spec_id(&self) -> ox::Buffer {
        self.inner
    }

    pub closed spec fn spec_index_type(&self) -> IndexType {
        self.inner_type
    }

    /// The buffer's name.
    pub fn id(&self) -> (r: ox::Buffer)
        ensures
            r == self.spec_id(),
    {
        self.inner
    }

    /// The type of the indices the buffer holds.
    pub fn index_type(&self) -> (r: IndexType)
        ensures
            r == self.spec_index_type(),
    {
        self.inner_type
    }

    /// Makes the buffer `id` (a name the driver gave) an element buffer holding `data`, read
    /// as indices of `index_type`: the returned calls bind it and give it the data.
    /// [`ElementBuffer::created`] decides the outcome.
    pub fn new(id: ox::Buffer, data: Vec<T>, usage: BufferUsage, index_type: IndexType) -> (r: (ElementBuffer<T>, Vec<GlCall>))
        ensures
            r.0.spec_id() == id,
            r.0.spec_index_type() == index_type,
            r.1@.len() == 2,
            r.1@[0] == ox::spec_bind_buffer(BufferType::ElementArray, Some(id)),
            ox::is_buffer_data_call(r.1@[1], BufferType::ElementArray, data, usage),
    {
        let created = ElementBuffer { inner: id, inner_type: index_type, marker: PhantomData };
        let calls = vec![created.bind(), ox::buffer_data(BufferType::ElementArray, data, usage)];
        (created, calls)
    }

    /// The buffer, unless the driver reported an error after its data was given; then the
    /// error, with the call that deletes the buffer.
    pub fn created(self, errors: &Vec<u32>) -> (r: Result<ElementBuffer<T>, (OwlError, GlCall)>)
        requires
            all_reported(errors@),
        ensures
            errors@.len() == 0 ==> (r matches Ok(b) && b.spec_id() == self.spec_id()
                && b.spec_index_type() == self.spec_index_type()),
            errors@.len() > 0 ==> (r matches Err((o, delete))
                && o.spec_message() == ox::last_base_error(errors@).spec_message() && o.spec_context() == "creating ElementBuffer"@
                && ox::is_delete_buffer_call(delete, self.spec_id())),
    {
        match ox::last_error(errors) {
            None => Ok(self),
            Some(e) => {
                let o = e.with_context("creating ElementBuffer");
                Err((o, self.delete()))
            },
        }
    }

    /// Overwrites the buffer's indices from index `offset` on with `data`: the returned calls
    /// bind the buffer and write the data. [`ElementBuffer::updated`] decides the outcome.
    pub fn update(&mut self, data: Vec<T>, offset: usize) -> (r: Vec<GlCall>)
        requires
            ox::subdata_byte_offset(data@, offset) <= isize::MAX,
        ensures
            *final(self) == *old(self),
            r@.len() == 2,
            r@[0] == ox::spec_bind_buffer(BufferType::ElementArray, Some(old(self).spec_id())),
            ox::is_buffer_subdata_call(r@[1], BufferType::ElementArray, data, offset),
    {
        vec![self.bind(), ox::buffer_subdata(BufferType::ElementArray, data, offset)]
    }

    /// The outcome of an update, from the errors reported after its last call.
    pub fn updated(errors: &Vec<u32>) -> (r: Result<(), OwlError>)
        requires
            all_reported(errors@),
        ensures
            errors@.len() == 0 ==> r is Ok,
            errors@.len() > 0 ==> (r matches Err(o)
                && o.spec_message() == update_failure_message(ox::last_base_error(errors@)) + ", "@ + ox::last_base_error(errors@).spec_message()
                && o.spec_context() == "updating ElementBuffer"@),
    {
        update_result(errors, "updating ElementBuffer")
    }

    /// Binds this buffer to `ELEMENT_ARRAY_BUFFER`.
    pub fn bind(&self) -> (r: GlCall)
        ensures
            r == ox::spec_bind_buffer(BufferType::ElementArray, Some(self.spec_id())),
    {
        ox::bind_buffer(BufferType::ElementArray, Some(self.inner))
    }

    /// Leaves `ELEMENT_ARRAY_BUFFER` unbound.
    pub fn unbind() -> (r: GlCall)
        ensures
            r == ox::spec_bind_buffer(BufferType::ElementArray, None),
    {
        ox::bind_buffer(BufferType::ElementArray, None)
    }

    /// Gives the buffer back: the returned call deletes it.
    pub fn delete(self) -> (r: GlCall)
        ensures
            ox::is_delete_buffer_call(r, self.spec_id()),
    {
        ox::delete_buffer(self.inner)
    }
}

} // verus!
