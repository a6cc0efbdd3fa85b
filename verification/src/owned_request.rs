//! Requests that own their bytes, for asynchronous dispatch.
//!
//! A request that is handled asynchronously has to own its data, since the buffer that it
//! was read into is reused for the next one.
use crate::channel::ChannelSender;
use crate::ll::{self, AnyRequest};
use crate::wire::{self, ByteOrder};
use std::sync::Arc;
use vstd::prelude::*;
use vstd::slice::slice_to_vec;

verus! {

/// An owned FUSE request that can be sent across threads.
#[derive(Debug)]
pub struct OwnedRequest<C> {
    data: Arc<Vec<u8>>,
    sender: ChannelSender<C>,
    order: ByteOrder,
}

impl<C> OwnedRequest<C> {
    /// The raw bytes of the request.
    pub closed spec fn bytes(self) -> Seq<u8> {
        self.data@
    }

    /// The handle that replies go through.
    pub closed spec fn reply_sender(self) -> ChannelSender<C> {
        self.sender
    }

    /// The order in which the machine that made the request stores integers.
    pub closed spec fn byte_order(self) -> ByteOrder {
        self.order
    }

    /// Copies `data` into a new request, whose replies go through `sender`.
    #[inline]
    pub fn new(data: &[u8], sender: ChannelSender<C>) -> (r: OwnedRequest<C>)
        ensures
            r.bytes() == data@,
            r.reply_sender() == sender,
            r.byte_order() == wire::host_order(),
    {
        OwnedRequest { data: Arc::new(slice_to_vec(data)), sender, order: wire::native_order() }
    }

    /// Parses the request header.
    ///
    /// Returns `None` if the request data is invalid.
    #[inline]
    pub fn parse(&self) -> (r: Option<AnyRequest<'_>>)
        ensures
            r is Some <==> ll::is_request(self.byte_order(), self.bytes()),
            r matches Some(request) ==> request.is_read_from(self.byte_order(), self.bytes()),
    {
        AnyRequest::parse(self.order, self.data.as_slice())
    }

    /// Gets the raw request data.
    #[inline]
    pub fn data(&self) -> (r: &[u8])
        ensures
            r@ == self.bytes(),
    {
        self.data.as_slice()
    }

    /// Gets a reference to the channel sender.
    #[inline]
    pub fn sender(&self) -> (r: &ChannelSender<C>)
        ensures
            *r == self.reply_sender(),
    {
        &self.sender
    }

    /// Clones the channel sender.
    #[inline]
    pub fn clone_sender(&self) -> (r: ChannelSender<C>)
        ensures
            r == self.reply_sender(),
    {
        self.sender.clone()
    }

    /// Gets the byte order of the request.
    #[inline]
    pub fn order(&self) -> (r: ByteOrder)
        ensures
            r == self.byte_order(),
    {
        self.order
    }

    /// Makes the view of this request that filesystem callbacks get.
    ///
    /// Returns `None` if the request data is invalid.
    #[inline]
    pub fn as_legacy_request(&self) -> (r: Option<Request<'_, C>>)
        ensures
            r is Some <==> ll::is_request(self.byte_order(), self.bytes()),
            r matches Some(request) ==> {
                &&& request.any().is_read_from(self.byte_order(), self.bytes())
                &&& request.channel() == self.reply_sender()
                &&& request.bytes() == self.bytes()
            },
    {
        Request::new(self.sender.clone(), self.order, self.data.as_slice())
    }
}

/// A request as filesystem callbacks see it.
pub struct Request<'a, C> {
    ch: ChannelSender<C>,
    data: &'a [u8],
    request: AnyRequest<'a>,
}

impl<'a, C> Request<'a, C> {
    /// The request that was read.
    pub closed spec fn any(self) -> AnyRequest<'a> {
        self.request
    }

    /// The handle that replies go through.
    pub closed spec fn channel(self) -> ChannelSender<C> {
        self.ch
    }

    /// The raw bytes.
    pub closed spec fn bytes(self) -> Seq<u8> {
        self.data@
    }

    /// Reads the request that `data` starts with; `None` if it does not start with one.
    pub fn new(ch: ChannelSender<C>, order: ByteOrder, data: &'a [u8]) -> (r: Option<
        Request<'a, C>,
    >)
        ensures
            r is Some <==> ll::is_request(order, data@),
            r matches Some(request) ==> {
                &&& request.any().is_read_from(order, data@)
                &&& request.channel() == ch
                &&& request.bytes() == data@
            },
    {
        match AnyRequest::parse(order, data) {
            Some(request) => Some(Request { ch, data, request }),
            None => None,
        }
    }

    /// The identifier of the request.
    pub fn unique(&self) -> (r: u64)
        ensures
            r == self.any().header().unique,
    {
        self.request.unique()
    }

    /// The user that caused the request.
    pub fn uid(&self) -> (r: u32)
        ensures
            r == self.any().header().uid,
    {
        self.request.uid()
    }

    /// The group of that user.
    pub fn gid(&self) -> (r: u32)
        ensures
            r == self.any().header().gid,
    {
        self.request.gid()
    }

    /// The process that caused the request.
    pub fn pid(&self) -> (r: u32)
        ensures
            r == self.any().header().pid,
    {
        self.request.pid()
    }
}

/// A reader that receives FUSE requests from the kernel.
///
/// Each reader has its own handle, so that readers take requests independently.
#[derive(Debug)]
pub struct FuseReader<C> {
    sender: ChannelSender<C>,
}

impl<C> FuseReader<C> {
    /// The handle of the reader.
    pub closed spec fn handle(self) -> ChannelSender<C> {
        self.sender
    }

    /// Makes a reader of the device behind `sender`.
    pub fn new(sender: ChannelSender<C>) -> (r: FuseReader<C>)
        ensures
            r.handle() == sender,
    {
        FuseReader { sender }
    }

    /// Makes an owned request from the data in a buffer. Its replies go through the handle of
    /// the reader.
    #[inline]
    pub fn make_owned_request(&self, data: &[u8]) -> (r: OwnedRequest<C>)
        ensures
            r.bytes() == data@,
            r.reply_sender() == self.handle(),
            r.byte_order() == wire::host_order(),
    {
        OwnedRequest::new(data, self.sender.clone())
    }

    /// Gets a reference to the channel sender for replies.
    #[inline]
    pub fn sender(&self) -> (r: &ChannelSender<C>)
        ensures
            *r == self.handle(),
    {
        &self.sender
    }

    /// What a `read` system call on the device came to: `rc` is what it returned, `errno` the
    /// error that the system has noted for it.
    ///
    /// Returns the number of bytes read, or the error.
    pub fn read_outcome(rc: isize, errno: i32) -> (r: Result<usize, i32>)
        ensures
            r == if rc < 0 {
                Err::<usize, i32>(errno)
            } else {
                Ok(rc as usize)
            },
            r matches Ok(size) ==> size == rc,
            r matches Err(error) ==> error == errno && rc < 0,
    {
        if rc < 0 {
            Err(errno)
        } else {
            Ok(rc as usize)
        }
    }
}

} // verus!
