use vstd::prelude::*;
use crate::error::ConnectionError;

verus! {

/// The abstract state of a connection, without the transport it holds.
#[derive(Copy, Clone, Debug, PartialEq, Eq, Structural)]
pub enum Link {
    /// The connection was closed on purpose; it stays down.
    Closed,
    /// A transport is attached and usable.
    Connected,
    /// The transport was dropped; a reconnection may bring it back.
    Disconnected,
}

/// The status of a connection, holding the transport `S` while connected.
pub enum StreamStatus<S> {
    /// The stream was closed manually.
    Closed,
    /// The stream is connected.
    Connected(S),
    /// The stream is disconnected, an attempt to reconnect will be made.
    Disconnected,
}

impl<S> View for StreamStatus<S> {
    type V = Link;

    open spec fn view(&self) -> Link {
        match self {
            StreamStatus::Closed => Link::Closed,
            StreamStatus::Connected(_) => Link::Connected,
            StreamStatus::Disconnected => Link::Disconnected,
        }
    }
}

/// Whether the link can carry data, and the error reported when it cannot.
pub open spec fn availability(l: Link) -> Result<(), ConnectionError> {
    match l {
        Link::Closed => Err(ConnectionError::Closed),
        Link::Connected => Ok(()),
        Link::Disconnected => Err(ConnectionError::Disconnected),
    }
}

/// What a requested disconnection answers.
pub open spec fn disconnect_answer(l: Link) -> Result<(), ConnectionError> {
    match l {
        Link::Closed => Err(ConnectionError::Closed),
        Link::Connected => Ok(()),
        Link::Disconnected => Err(ConnectionError::AlreadyDisconnected),
    }
}

/// The link after a requested disconnection.
pub open spec fn after_disconnect(l: Link) -> Link {
    if l == Link::Connected { Link::Disconnected } else { l }
}

/// What a requested close answers.
pub open spec fn close_answer(l: Link) -> Result<(), ConnectionError> {
    if l == Link::Closed { Err(ConnectionError::AlreadyClosed) } else { Ok(()) }
}

/// The link after a requested close: closed, whatever it was.
pub open spec fn after_close(l: Link) -> Link {
    Link::Closed
}

/// The link after the reader marks it as dropped: closed stays closed.
pub open spec fn after_mark(l: Link) -> Link {
    if l == Link::Closed { Link::Closed } else { Link::Disconnected }
}

/// The link after a reconnection attached a new transport: closed stays
/// closed.
pub open spec fn after_restore(l: Link) -> Link {
    if l == Link::Closed { Link::Closed } else { Link::Connected }
}

/// What a write answers, given whether the transport took the bytes
/// (consulted only while connected).
pub open spec fn write_answer(l: Link, written: bool) -> Result<(), ConnectionError> {
    match l {
        Link::Connected => if written { Ok(()) } else { Err(ConnectionError::Disconnected) },
        _ => availability(l),
    }
}

/// The link after a write.
pub open spec fn after_write(l: Link, written: bool) -> Link {
    if l == Link::Connected && !written { Link::Disconnected } else { l }
}

/// How a read or write refused for want of a connection is classified for
/// byte-stream callers.
#[derive(Copy, Clone, Debug, PartialEq, Eq, Structural)]
pub enum Refusal {
    /// The connection was closed on purpose.
    NotConnected,
    /// The connection dropped.
    ConnectionReset,
}

/// The refusal a byte-stream operation meets on link `l`, if any.
pub open spec fn io_refusal_of(l: Link) -> Option<(Refusal, ConnectionError)> {
    match l {
        Link::Closed => Some((Refusal::NotConnected, ConnectionError::Closed)),
        Link::Connected => None,
        Link::Disconnected => Some((Refusal::ConnectionReset, ConnectionError::Disconnected)),
    }
}

impl<S> StreamStatus<S> {
    /// The transport held while connected.
    pub open spec fn transport(self) -> Option<S> {
        match self {
            StreamStatus::Connected(s) => Some(s),
            _ => None,
        }
    }

    /// A status that holds a freshly connected transport.
    pub fn connected(stream: S) -> (st: Self)
        ensures
            st == StreamStatus::Connected(stream),
    {
        StreamStatus::Connected(stream)
    }

    /// The state of the link.
    pub fn link(&self) -> (l: Link)
        ensures
            l == self@,
    {
        match self {
            StreamStatus::Closed => Link::Closed,
            StreamStatus::Connected(_) => Link::Connected,
            StreamStatus::Disconnected => Link::Disconnected,
        }
    }

    /// Whether the connection was closed manually.
    pub fn is_closed(&self) -> (closed: bool)
        ensures
            closed <==> self@ == Link::Closed,
    {
        match self {
            StreamStatus::Closed => true,
            _ => false,
        }
    }

    /// Whether data can flow; the error to report when it cannot.
    pub fn check_available(&self) -> (r: Result<(), ConnectionError>)
        ensures
            r == availability(self@),
    {
        match self {
            StreamStatus::Closed => Err(ConnectionError::Closed),
            StreamStatus::Connected(_) => Ok(()),
            StreamStatus::Disconnected => Err(ConnectionError::Disconnected),
        }
    }

    /// The refusal that a read, write or flush of raw bytes meets, if the
    /// link is not connected.
    pub fn io_refusal(&self) -> (r: Option<(Refusal, ConnectionError)>)
        ensures
            r == io_refusal_of(self@),
    {
        match self {
            StreamStatus::Closed => Some((Refusal::NotConnected, ConnectionError::Closed)),
            StreamStatus::Connected(_) => None,
            StreamStatus::Disconnected => Some((Refusal::ConnectionReset, ConnectionError::Disconnected)),
        }
    }

    /// Mark the connection as dropped after its reader lost it. A closed
    /// connection stays closed and the answer is `Err(Closed)`; otherwise the
    /// link becomes disconnected and the transport it held, if any, is
    /// handed back to be released.
    pub fn set_disconnected(&mut self) -> (r: Result<Option<S>, ConnectionError>)
        ensures
            final(self)@ == after_mark(old(self)@),
            old(self)@ == Link::Closed ==> *final(self) == *old(self)
                && r == Err::<Option<S>, ConnectionError>(ConnectionError::Closed),
            old(self)@ != Link::Closed ==> r == Ok::<Option<S>, ConnectionError>(old(self).transport()),
    {
        if self.is_closed() {
            return Err(ConnectionError::Closed);
        }
        let mut prev = StreamStatus::Disconnected;
        std::mem::swap(self, &mut prev);
        match prev {
            StreamStatus::Connected(s) => Ok(Some(s)),
            _ => Ok(None),
        }
    }

    /// Attach a freshly opened transport once a reconnection succeeded. A
    /// closed connection stays closed and the new transport is handed back
    /// to be shut down; otherwise the link becomes connected to it, and the
    /// transport it held before, if any, is handed back to be released.
    pub fn restore(&mut self, stream: S) -> (r: Result<Option<S>, S>)
        ensures
            final(self)@ == after_restore(old(self)@),
            old(self)@ == Link::Closed ==> *final(self) == *old(self) && r == Err::<Option<S>, S>(stream),
            old(self)@ != Link::Closed ==> *final(self) == StreamStatus::Connected(stream)
                && r == Ok::<Option<S>, S>(old(self).transport()),
    {
        if self.is_closed() {
            return Err(stream);
        }
        let mut prev = StreamStatus::Connected(stream);
        std::mem::swap(self, &mut prev);
        match prev {
            StreamStatus::Connected(s) => Ok(Some(s)),
            _ => Ok(None),
        }
    }

    /// Drop the connection so that it is re-created. On success, hands back
    /// the transport, which is to be shut down.
    pub fn disconnect(&mut self) -> (r: Result<S, ConnectionError>)
        ensures
            final(self)@ == after_disconnect(old(self)@),
            old(self)@ != Link::Connected ==> *final(self) == *old(self),
            match r {
                Ok(s) => old(self)@ == Link::Connected && old(self).transport() == Some(s),
                Err(e) => disconnect_answer(old(self)@) == Err::<(), ConnectionError>(e),
            },
            r is Ok <==> disconnect_answer(old(self)@) is Ok,
    {
        match self {
            StreamStatus::Closed => return Err(ConnectionError::Closed),
            StreamStatus::Disconnected => return Err(ConnectionError::AlreadyDisconnected),
            StreamStatus::Connected(_) => {},
        }
        let mut prev = StreamStatus::Disconnected;
        std::mem::swap(self, &mut prev);
        match prev {
            StreamStatus::Connected(s) => Ok(s),
            _ => Err(ConnectionError::AlreadyDisconnected),
        }
    }

    /// Close the connection for good. On success, hands back the transport
    /// it held, if any, which is to be shut down.
    pub fn close(&mut self) -> (r: Result<Option<S>, ConnectionError>)
        ensures
            final(self)@ == after_close(old(self)@),
            match r {
                Ok(t) => old(self)@ != Link::Closed && t == old(self).transport(),
                Err(e) => close_answer(old(self)@) == Err::<(), ConnectionError>(e),
            },
            r is Ok <==> close_answer(old(self)@) is Ok,
    {
        if self.is_closed() {
            return Err(ConnectionError::AlreadyClosed);
        }
        let mut prev = StreamStatus::Closed;
        std::mem::swap(self, &mut prev);
        match prev {
            StreamStatus::Connected(s) => Ok(Some(s)),
            _ => Ok(None),
        }
    }

    /// The transport to write to, when connected; otherwise the error that
    /// a write reports.
    pub fn stream_mut(&mut self) -> (r: Result<&mut S, ConnectionError>)
        ensures
            old(self)@ == Link::Connected <==> r is Ok,
            match r {
                Ok(s) => old(self).transport() == Some(*s)
                    && *final(self) == StreamStatus::Connected(*final(s)),
                Err(e) => availability(old(self)@) == Err::<(), ConnectionError>(e)
                    && *final(self) == *old(self),
            },
    {
        match self {
            StreamStatus::Closed => Err(ConnectionError::Closed),
            StreamStatus::Connected(s) => Ok(s),
            StreamStatus::Disconnected => Err(ConnectionError::Disconnected),
        }
    }

    /// Record how a write on the transport went. A failed write drops the
    /// connection; the transport is then handed back to be shut down.
    pub fn finish_write(&mut self, written: bool) -> (r: (Result<(), ConnectionError>, Option<S>))
        ensures
            r.0 == write_answer(old(self)@, written),
            final(self)@ == after_write(old(self)@, written),
            r.1 == (if old(self)@ == Link::Connected && !written { old(self).transport() } else { None }),
            !(old(self)@ == Link::Connected && !written) ==> *final(self) == *old(self),
    {
        match self {
            StreamStatus::Closed => (Err(ConnectionError::Closed), None),
            StreamStatus::Disconnected => (Err(ConnectionError::Disconnected), None),
            StreamStatus::Connected(_) => {
                if written {
                    (Ok(()), None)
                } else {
                    let mut prev = StreamStatus::Disconnected;
                    std::mem::swap(self, &mut prev);
                    match prev {
                        StreamStatus::Connected(s) => (Err(ConnectionError::Disconnected), Some(s)),
                        _ => (Err(ConnectionError::Disconnected), None),
                    }
                }
            },
        }
    }
}

/// A closed connection stays closed: every operation on it, by the writer
/// or by the reader, leaves it closed; the writer's operations fail, and no
/// write reaches a transport.
pub proof fn lemma_closed_is_final(written: bool)
    ensures
        disconnect_answer(Link::Closed) == Err::<(), ConnectionError>(ConnectionError::Closed),
        after_disconnect(Link::Closed) == Link::Closed,
        close_answer(Link::Closed) == Err::<(), ConnectionError>(ConnectionError::AlreadyClosed),
        after_close(Link::Closed) == Link::Closed,
        write_answer(Link::Closed, written) == Err::<(), ConnectionError>(ConnectionError::Closed),
        after_write(Link::Closed, written) == Link::Closed,
        availability(Link::Closed) == Err::<(), ConnectionError>(ConnectionError::Closed),
        after_mark(Link::Closed) == Link::Closed,
        after_restore(Link::Closed) == Link::Closed,
{
}

/// A close succeeds exactly on a connection that is not closed yet; after
/// it the connection is closed, and a second close fails.
pub proof fn lemma_close_then_closed(l: Link)
    ensures
        close_answer(l) is Ok <==> l != Link::Closed,
        after_close(l) == Link::Closed,
        close_answer(after_close(l)) == Err::<(), ConnectionError>(ConnectionError::AlreadyClosed),
{
}

/// A requested disconnection succeeds exactly on a connected link and
/// leaves it disconnected; a second one fails. A reconnection then brings a
/// disconnected link back to connected, so that writes go through again.
pub proof fn lemma_disconnect_then_reconnect(l: Link)
    ensures
        disconnect_answer(l) is Ok <==> l == Link::Connected,
        l == Link::Connected ==> after_disconnect(l) == Link::Disconnected,
        l == Link::Connected ==> disconnect_answer(after_disconnect(l))
            == Err::<(), ConnectionError>(ConnectionError::AlreadyDisconnected),
        l == Link::Connected ==> after_restore(after_disconnect(l)) == Link::Connected,
        l == Link::Connected ==> write_answer(after_restore(after_disconnect(l)), true) is Ok,
{
}

/// A write succeeds exactly when the link is connected and the transport
/// took the bytes; a failed write leaves the link disconnected, so that
/// later writes fail until a reconnection restores it.
pub proof fn lemma_write_needs_connection(l: Link, written: bool, later: bool)
    ensures
        write_answer(l, written) is Ok <==> (l == Link::Connected && written),
        write_answer(l, written) is Err ==> after_write(l, written) != Link::Connected,
        write_answer(l, written) is Err ==> write_answer(after_write(l, written), later) is Err,
{
}

/// Data flows only over a connected link. A closed link refuses with the
/// closed error, classed as not connected; a disconnected one with the
/// disconnected error, classed as a reset connection. A write whose bytes
/// the transport did not take answers the disconnected error as well.
pub proof fn lemma_refusals(l: Link)
    ensures
        availability(l) is Ok <==> l == Link::Connected,
        io_refusal_of(l) is None <==> l == Link::Connected,
        l == Link::Closed ==> availability(l) == Err::<(), ConnectionError>(ConnectionError::Closed)
            && io_refusal_of(l) == Some((Refusal::NotConnected, ConnectionError::Closed)),
        l == Link::Disconnected ==> availability(l) == Err::<(), ConnectionError>(ConnectionError::Disconnected)
            && io_refusal_of(l) == Some((Refusal::ConnectionReset, ConnectionError::Disconnected)),
        write_answer(Link::Connected, false) == Err::<(), ConnectionError>(ConnectionError::Disconnected),
        write_answer(Link::Connected, true) == Ok::<(), ConnectionError>(()),
        l != Link::Connected ==> forall|w: bool| #[trigger] write_answer(l, w) == availability(l),
{
}

/// The reader's mark of a dropped connection leaves any link that is not
/// closed disconnected; a restored one leaves it connected, so that after
/// a lost connection and a successful reconnection, data flows again.
pub proof fn lemma_mark_then_restore(l: Link)
    ensures
        l != Link::Closed ==> after_mark(l) == Link::Disconnected,
        l != Link::Closed ==> after_restore(l) == Link::Connected,
        l != Link::Closed ==> availability(after_restore(after_mark(l))) is Ok,
{
}

} // verus!
