use vstd::prelude::*;

verus! {

/// The identifier of an application protocol that can be spoken over a
/// substream of a peer connection.
#[derive(Debug, PartialEq, Eq, Hash)]
pub struct ProtocolId(pub Vec<u8>);

impl View for ProtocolId {
    type V = Seq<u8>;

    open spec fn view(&self) -> Seq<u8> {
        self.0@
    }
}

impl Clone for ProtocolId {
    /// A second identifier with the same bytes.
    fn clone(&self) -> (copy: Self)
        ensures
            copy@ == self@,
    {
        ProtocolId(self.0.clone())
    }
}

/// The identifiers of a list, each by its bytes.
pub open spec fn protocol_ids(list: Seq<ProtocolId>) -> Seq<Seq<u8>> {
    list.map_values(|p: ProtocolId| p@)
}

/// Copies a list of protocol identifiers, keeping their order.
pub fn duplicate_protocols(list: &Vec<ProtocolId>) -> (copy: Vec<ProtocolId>)
    ensures
        protocol_ids(copy@) == protocol_ids(list@),
{
    let mut copy: Vec<ProtocolId> = Vec::new();
    let mut i: usize = 0;
    while i < list.len()
        invariant
            i <= list.len(),
            copy@.len() == i,
            forall|k: int| 0 <= k < i ==> copy@[k]@ == list@[k]@,
        decreases list.len() - i,
    {
        copy.push(list[i].clone());
        i += 1;
    }
    assert(protocol_ids(copy@) =~= protocol_ids(list@));
    copy
}

} // verus!
