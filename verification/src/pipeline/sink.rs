use vstd::prelude::*;

verus! {

/// A service which forwards any message it gets to the sink it holds.
pub struct SinkService<TSink>(TSink);

impl<TSink: Clone> Clone for SinkService<TSink> {
    /// A second service over a clone of the sink.
    fn clone(&self) -> (copy: Self)
        ensures
            cloned(self.sink(), copy.sink()),
    {
        SinkService(self.0.clone())
    }
}

impl<TSink> SinkService<TSink> {
    /// The sink that messages are forwarded to.
    pub closed spec fn sink(&self) -> TSink {
        self.0
    }

    /// Wraps `sink` without touching it.
    pub fn new(sink: TSink) -> (service: Self)
        ensures
            service.sink() == sink,
    {
        SinkService(sink)
    }

    /// Shared access to the sink.
    pub fn get_ref(&self) -> (sink: &TSink)
        ensures
            *sink == self.sink(),
    {
        &self.0
    }

    /// Exclusive access to the sink; what the caller leaves in it is what the
    /// service holds afterwards.
    pub fn get_mut(&mut self) -> (sink: &mut TSink)
        ensures
            *sink == old(self).sink(),
            final(self).sink() == *final(sink),
    {
        &mut self.0
    }

    /// Gives the sink back.
    pub fn into_inner(self) -> (sink: TSink)
        ensures
            sink == self.sink(),
    {
        self.0
    }
}

} // verus!
