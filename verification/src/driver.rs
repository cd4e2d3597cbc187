//! Execution streams and device buffers, as this crate sees them.
//!
//! A stream is known by the address of the vendor's stream object and by the
//! accelerator context that owns it. A buffer is known by its device address,
//! its length in elements, and the stream on which it was last written.
//! Neither is owned here: the memory and the stream belong to whoever made
//! them, and a dispatch borrows them for one call.
//!
//! A stream runs its work in the order in which it was enqueued; two streams
//! run side by side. So a call that touches a buffer on one stream has to
//! come after what wrote the buffer on another, and a [`Capture`] says which
//! stream that is.

use std::marker::PhantomData;
use vstd::prelude::*;

verus! {

/// An ordered queue of accelerator operations.
#[derive(Clone, Copy, Debug, PartialEq, Eq, Hash, Structural)]
pub struct CudaStream {
    /// The accelerator context that owns the stream.
    pub context: usize,
    /// The address of the vendor's stream object.
    pub cu_stream: usize,
}

impl CudaStream {
    /// The stream at `cu_stream` of the context `context`.
    pub fn new(context: usize, cu_stream: usize) -> (stream: Self)
        ensures
            stream.context == context,
            stream.cu_stream == cu_stream,
    {
        CudaStream { context, cu_stream }
    }

    /// The accelerator context that owns the stream.
    pub fn context(&self) -> (context: usize)
        ensures
            context == self.context,
    {
        self.context
    }

    /// The address of the vendor's stream object.
    pub fn cu_stream(&self) -> (cu_stream: usize)
        ensures
            cu_stream == self.cu_stream,
    {
        self.cu_stream
    }
}

/// How a dispatch uses a buffer.
#[derive(Clone, Copy, Debug, PartialEq, Eq, Hash, Structural)]
pub enum Access {
    /// The call reads the buffer.
    Read,
    /// The call writes the buffer (and may read it first).
    Write,
}

/// A buffer tied to a stream for the length of one call.
///
/// To act on a capture is to make the stream wait for the work of the stream
/// `after`, if there is one, and so to order what the stream does next after
/// everything that wrote the buffer before. To release it is to record the
/// call as the buffer's latest use.
#[derive(Clone, Copy, Debug, PartialEq, Eq, Hash, Structural)]
pub struct Capture {
    /// The device address of the buffer's first element.
    pub address: u64,
    /// The length of the buffer, in elements.
    pub len: usize,
    /// The address of the stream that the buffer is tied to.
    pub stream: usize,
    /// How the call uses the buffer.
    pub access: Access,
    /// The address of the stream that the buffer was last written on, where
    /// that is another stream than the one it is tied to.
    pub after: Option<usize>,
}

/// The stream that a stream has to wait for before it touches a buffer: the
/// one that the buffer was last written on. There is none where no write is
/// known, nor where the write was on the stream itself, which runs its work
/// in the order in which it was enqueued.
pub open spec fn dependency(producer: Option<usize>, stream: usize) -> Option<usize> {
    match producer {
        Some(earlier) => if earlier != stream {
            Some(earlier)
        } else {
            None
        },
        None => None,
    }
}

/// Memory in the accelerator's address space that holds `len` elements of
/// type `T`, starting at `address`, together with the stream on which it was
/// last written, as far as that is known.
#[derive(Debug)]
pub struct DeviceSlice<T> {
    address: u64,
    len: usize,
    producer: Option<usize>,
    element: PhantomData<T>,
}

impl<T> DeviceSlice<T> {
    /// The device address of the first element.
    pub closed spec fn address_spec(&self) -> u64 {
        self.address
    }

    /// The number of elements.
    pub closed spec fn len_spec(&self) -> usize {
        self.len
    }

    /// The address of the stream on which the buffer was last written.
    pub closed spec fn producer_spec(&self) -> Option<usize> {
        self.producer
    }

    /// What tying this buffer to `stream` for `access` amounts to.
    pub open spec fn captured(&self, stream: CudaStream, access: Access) -> Capture {
        Capture {
            address: self.address_spec(),
            len: self.len_spec(),
            stream: stream.cu_stream,
            access,
            after: dependency(self.producer_spec(), stream.cu_stream),
        }
    }

    /// Whether this is the buffer `before` after a write on `stream`: the
    /// same memory, last written on that stream.
    pub open spec fn is_written(&self, before: Self, stream: CudaStream) -> bool {
        &&& self.address_spec() == before.address_spec()
        &&& self.len_spec() == before.len_spec()
        &&& self.producer_spec() == Some(stream.cu_stream)
    }

    /// The buffer of `len` elements at `address`, of which no write is
    /// known to be under way.
    pub fn new(address: u64, len: usize) -> (slice: Self)
        ensures
            slice.address_spec() == address,
            slice.len_spec() == len,
            slice.producer_spec() is None,
    {
        DeviceSlice { address, len, producer: None, element: PhantomData }
    }

    /// The buffer of `len` elements at `address` that was last written on
    /// `stream`.
    pub fn written_on(address: u64, len: usize, stream: &CudaStream) -> (slice: Self)
        ensures
            slice.address_spec() == address,
            slice.len_spec() == len,
            slice.producer_spec() == Some(stream.cu_stream),
    {
        DeviceSlice { address, len, producer: Some(stream.cu_stream), element: PhantomData }
    }

    /// The device address of the first element.
    #[verifier::when_used_as_spec(address_spec)]
    pub fn address(&self) -> (address: u64)
        ensures
            address == self.address_spec(),
    {
        self.address
    }

    /// The number of elements.
    #[verifier::when_used_as_spec(len_spec)]
    pub fn len(&self) -> (len: usize)
        ensures
            len == self.len_spec(),
    {
        self.len
    }

    /// The address of the stream on which the buffer was last written.
    #[verifier::when_used_as_spec(producer_spec)]
    pub fn producer(&self) -> (producer: Option<usize>)
        ensures
            producer == self.producer_spec(),
    {
        self.producer
    }

    /// Ties the buffer to `stream` for reading.
    pub fn device_ptr(&self, stream: &CudaStream) -> (capture: Capture)
        ensures
            capture == self.captured(*stream, Access::Read),
    {
        Capture {
            address: self.address,
            len: self.len,
            stream: stream.cu_stream,
            access: Access::Read,
            after: ordered_after(self.producer, stream.cu_stream),
        }
    }

    /// Ties the buffer to `stream` for writing. From now on `stream` is the
    /// one that the buffer was last written on.
    pub fn device_ptr_mut(&mut self, stream: &CudaStream) -> (capture: Capture)
        ensures
            capture == old(self).captured(*stream, Access::Write),
            final(self).is_written(*old(self), *stream),
    {
        let after = ordered_after(self.producer, stream.cu_stream);
        self.producer = Some(stream.cu_stream);
        Capture {
            address: self.address,
            len: self.len,
            stream: stream.cu_stream,
            access: Access::Write,
            after,
        }
    }
}

/// Computes [`dependency`].
pub fn ordered_after(producer: Option<usize>, stream: usize) -> (after: Option<usize>)
    ensures
        after == dependency(producer, stream),
{
    match producer {
        Some(earlier) => if earlier != stream {
            Some(earlier)
        } else {
            None
        },
        None => None,
    }
}

} // verus!
