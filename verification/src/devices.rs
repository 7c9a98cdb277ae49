//! The device registry: the output devices that can be named, in the order
//! in which the host lists them, and the index of the one in use.
//!
//! The registry holds no device handle. It knows each device by its position
//! in the host's enumeration, which is what the owner of the handles needs to
//! find one again.

use vstd::prelude::*;

verus! {

/// Positions in `probed` of the devices whose name could be read, ascending.
pub open spec fn named_positions(probed: Seq<Option<String>>) -> Seq<int>
    decreases probed.len(),
{
    if probed.len() == 0 {
        Seq::empty()
    } else if probed.last() is Some {
        named_positions(probed.drop_last()).push(probed.len() - 1)
    } else {
        named_positions(probed.drop_last())
    }
}

/// The configured index where it names a listed device, else the first one.
pub open spec fn index_in_use(configured: int, listed: int) -> int {
    if 0 <= configured < listed {
        configured
    } else {
        0
    }
}

/// The mathematical value of a registry.
pub struct DevicesModel {
    /// Display names, in listing order.
    pub names: Seq<Seq<char>>,
    /// For each listed device, its position in the host's enumeration.
    pub positions: Seq<int>,
    /// Index of the device in use.
    pub current: int,
}

/// Registry of the output devices that have a display name.
pub struct Devices {
    device_names: Vec<String>,
    positions: Vec<usize>,
    current_device: usize,
}

impl View for Devices {
    type V = DevicesModel;

    closed spec fn view(&self) -> DevicesModel {
        DevicesModel {
            names: Seq::new(self.device_names@.len(), |i: int| self.device_names@[i]@),
            positions: Seq::new(self.positions@.len(), |i: int| self.positions@[i] as int),
            current: self.current_device as int,
        }
    }
}

impl Devices {
    /// Names and positions are index-aligned, and the index in use names a
    /// listed device unless none is listed.
    #[verifier::type_invariant]
    spec fn aligned(self) -> bool {
        &&& self.device_names@.len() == self.positions@.len()
        &&& self.current_device < self.device_names@.len() || self.current_device == 0
    }

    /// Builds the registry from the host's enumeration: `probed` holds, for
    /// each device in order, its display name, or `None` where the name could
    /// not be read. Such a device is left out. `curr_device` is the
    /// configured index; where it names no listed device the first is used.
    pub fn new(probed: Vec<Option<String>>, curr_device: usize) -> (made: Devices)
        ensures
            made@.positions == named_positions(probed@),
            made@.names.len() == made@.positions.len(),
            forall|k: int|
                0 <= k < made@.names.len() ==> {
                    &&& 0 <= #[trigger] made@.positions[k] < probed@.len()
                    &&& probed@[made@.positions[k]] matches Some(name)
                    &&& name@ == made@.names[k]
                },
            made@.current == index_in_use(curr_device as int, made@.names.len() as int),
    {
        let mut device_names: Vec<String> = Vec::new();
        let mut positions: Vec<usize> = Vec::new();
        let mut i: usize = 0;
        assert(probed@.take(0) =~= Seq::empty());
        while i < probed.len()
            invariant
                i <= probed.len(),
                device_names@.len() == positions@.len(),
                Seq::new(positions@.len(), |k: int| positions@[k] as int) == named_positions(
                    probed@.take(i as int),
                ),
                forall|k: int|
                    0 <= k < positions@.len() ==> {
                        &&& #[trigger] positions@[k] < i
                        &&& probed@[positions@[k] as int] matches Some(name)
                        &&& name@ == device_names@[k]@
                    },
            decreases probed.len() - i,
        {
            proof {
                let next = probed@.take(i + 1);
                assert(next.drop_last() =~= probed@.take(i as int));
                assert(next.last() == probed@[i as int]);
            }
            let ghost before = Seq::new(positions@.len(), |k: int| positions@[k] as int);
            match &probed[i] {
                Some(name) => {
                    device_names.push(name.clone());
                    positions.push(i);
                    assert(Seq::new(positions@.len(), |k: int| positions@[k] as int) =~= before.push(
                        i as int,
                    ));
                },
                None => {},
            }
            i += 1;
        }
        assert(probed@.take(i as int) =~= probed@);
        let current_device: usize = if curr_device < device_names.len() {
            curr_device
        } else {
            0
        };
        Devices { device_names, positions, current_device }
    }

    /// The display names, in listing order.
    pub fn get_device_names(&self) -> (names: Vec<String>)
        ensures
            names@.len() == self@.names.len(),
            forall|k: int| 0 <= k < names@.len() ==> (#[trigger] names@[k])@ == self@.names[k],
    {
        let mut names: Vec<String> = Vec::new();
        let mut i: usize = 0;
        while i < self.device_names.len()
            invariant
                i <= self.device_names@.len(),
                names@.len() == i,
                forall|k: int| 0 <= k < i ==> (#[trigger] names@[k])@ == self.device_names@[k]@,
            decreases self.device_names@.len() - i,
        {
            names.push(self.device_names[i].clone());
            i += 1;
        }
        names
    }

    /// How many devices are listed.
    pub fn device_count(&self) -> (count: usize)
        ensures
            count == self@.names.len(),
            count == self@.positions.len(),
    {
        proof {
            use_type_invariant(self);
        }
        self.device_names.len()
    }

    /// Position, in the host's enumeration, of the device listed at `index`.
    pub fn get_device_by_index(&self, index: usize) -> (position: usize)
        requires
            index < self@.names.len(),
        ensures
            position as int == self@.positions[index as int],
    {
        proof {
            use_type_invariant(self);
        }
        self.positions[index]
    }

    /// Index of the device in use.
    pub fn get_current_device(&self) -> (index: usize)
        ensures
            index as int == self@.current,
            index < self@.names.len() || index == 0,
    {
        proof {
            use_type_invariant(self);
        }
        self.current_device
    }
}

/// The listed positions ascend strictly, and a device is listed exactly
/// when its name could be read.
pub proof fn lemma_named_positions(probed: Seq<Option<String>>)
    ensures
        forall|k: int|
            0 <= k < named_positions(probed).len() ==> 0 <= #[trigger] named_positions(probed)[k]
                < probed.len(),
        forall|j: int, k: int|
            0 <= j < k < named_positions(probed).len() ==> named_positions(probed)[j]
                < named_positions(probed)[k],
        forall|i: int|
            0 <= i < probed.len() ==> (#[trigger] probed[i] is Some <==> named_positions(
                probed,
            ).contains(i)),
    decreases probed.len(),
{
    if probed.len() > 0 {
        let front = probed.drop_last();
        let last = probed.len() - 1;
        lemma_named_positions(front);
        let listed = named_positions(probed);
        let before = named_positions(front);
        assert forall|i: int| 0 <= i < probed.len() implies (#[trigger] probed[i] is Some
            <==> listed.contains(i)) by {
            if i < last {
                assert(front[i] == probed[i]);
                if before.contains(i) {
                    let k = choose|k: int| 0 <= k < before.len() && before[k] == i;
                    assert(listed[k] == i);
                }
                if listed.contains(i) {
                    let k = choose|k: int| 0 <= k < listed.len() && listed[k] == i;
                    assert(before[k] == i);
                }
            } else {
                if probed[i] is Some {
                    assert(listed[listed.len() - 1] == i);
                }
                if listed.contains(i) {
                    let k = choose|k: int| 0 <= k < listed.len() && listed[k] == i;
                    if probed.last() is None {
                        assert(before[k] < front.len());
                    }
                }
            }
        }
    }
}

} // verus!
