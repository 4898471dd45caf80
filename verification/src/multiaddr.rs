use vstd::prelude::*;

verus! {

/// A transport-layer network address in its textual form, for instance
/// `/ip4/127.0.0.1/tcp/9000`. The listener never looks inside one.
#[derive(Debug, PartialEq, Eq, Hash)]
pub struct Multiaddr(pub String);

impl View for Multiaddr {
    type V = Seq<char>;

    open spec fn view(&self) -> Seq<char> {
        self.0@
    }
}

impl Clone for Multiaddr {
    /// A second owner of the same text.
    fn clone(&self) -> (copy: Self)
        ensures
            copy == *self,
    {
        Multiaddr(self.0.clone())
    }
}

/// The addresses of a list, each by its text.
pub open spec fn address_texts(list: Seq<Multiaddr>) -> Seq<Seq<char>> {
    list.map_values(|a: Multiaddr| a@)
}

} // verus!
