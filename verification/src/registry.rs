//! The interface registry: the capturable devices as they were enumerated at
//! startup, each known by its position.

use vstd::prelude::*;

verus! {

/// One capturable device: its position in the enumeration, and its name.
#[derive(Debug, Clone, PartialEq, Eq)]
pub struct IfCard {
    pub id: usize,
    pub name: String,
}

/// The refusal of a request that names no enumerated device.
#[derive(Debug, Clone, Copy, PartialEq, Eq, Structural)]
pub struct UnknownInterfaceId {
    pub id: usize,
}

/// The names in a list of strings, as mathematical values.
pub open spec fn names_of(names: Seq<String>) -> Seq<Seq<char>> {
    Seq::new(names.len(), |i: int| names[i]@)
}

/// The snapshot of the devices. Its view is the sequence of their names; the
/// identifier of a device is its index in that sequence, so each identifier
/// stands for exactly one name.
pub struct InterfaceRegistry {
    cards: Vec<IfCard>,
}

impl View for InterfaceRegistry {
    type V = Seq<Seq<char>>;

    closed spec fn view(&self) -> Seq<Seq<char>> {
        Seq::new(self.cards@.len(), |i: int| self.cards@[i].name@)
    }
}

impl InterfaceRegistry {
    #[verifier::type_invariant]
    spec fn ids_are_positions(self) -> bool {
        forall|i: int| 0 <= i < self.cards@.len() ==> (#[trigger] self.cards@[i]).id == i
    }

    /// Builds the registry from the device names in enumeration order:
    /// the first device gets identifier 0.
    pub fn from_names(names: &Vec<String>) -> (registry: InterfaceRegistry)
        ensures
            registry@ == names_of(names@),
    {
        let mut cards: Vec<IfCard> = Vec::new();
        let mut i: usize = 0;
        while i < names.len()
            invariant
                i <= names.len(),
                cards@.len() == i,
                forall|k: int| 0 <= k < i ==> (#[trigger] cards@[k]).id == k,
                forall|k: int| 0 <= k < i ==> (#[trigger] cards@[k]).name@ == names@[k]@,
            decreases names.len() - i,
        {
            cards.push(IfCard { id: i, name: names[i].clone() });
            i = i + 1;
        }
        let registry = InterfaceRegistry { cards };
        registry
    }

    /// How many devices were enumerated.
    pub fn len(&self) -> (n: usize)
        ensures
            n == self@.len(),
    {
        self.cards.len()
    }

    /// The cards of all devices, in enumeration order.
    pub fn cards(&self) -> (cards: &Vec<IfCard>)
        ensures
            cards@.len() == self@.len(),
            forall|i: int|
                0 <= i < cards@.len() ==> (#[trigger] cards@[i]).id == i && cards@[i].name@
                    == self@[i],
    {
        proof {
            use_type_invariant(self);
        }
        &self.cards
    }

    /// The name of the device with this identifier, or the refusal where no
    /// device has it.
    pub fn resolve(&self, id: usize) -> (res: Result<String, UnknownInterfaceId>)
        ensures
            match res {
                Ok(name) => id < self@.len() && name@ == self@[id as int],
                Err(refusal) => id >= self@.len() && refusal == (UnknownInterfaceId { id }),
            },
    {
        if id < self.cards.len() {
            Ok(self.cards[id].name.clone())
        } else {
            Err(UnknownInterfaceId { id })
        }
    }
}

} // verus!
