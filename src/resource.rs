use vstd::prelude::*;

verus! {

/// The concrete kind of a duplex stream.
#[derive(Debug, PartialEq, Eq, Clone, Copy, Structural)]
pub enum StreamKind {
    /// A plain TCP stream.
    Tcp,
    /// A TLS-encrypted stream.
    Tls,
    /// A local (Unix domain) socket stream.
    Unix,
}

/// A duplex stream stored as two independently owned halves. Each half
/// records the identity of the stream it was split from.
#[derive(Debug, Clone, Copy)]
pub struct SplitStream {
    pub kind: StreamKind,
    pub read_half: u64,
    pub write_half: u64,
    /// What asking the stream for its local address gives: an address
    /// identifier, or a native error code.
    pub local_addr: Result<u64, i32>,
}

/// A reunited stream served as an HTTP connection.
#[derive(Debug, PartialEq, Eq, Clone, Copy, Structural)]
pub struct Connection {
    pub stream: u64,
    pub addr: u64,
    pub kind: StreamKind,
}

/// What a handle can name.
#[derive(Debug, Clone, Copy)]
pub enum Resource {
    Stream(SplitStream),
    Connection(Connection),
    /// A resource of a kind this layer does not handle.
    Other(u64),
}

/// A live resource, with the number of references held besides the table's.
#[derive(Debug, Clone, Copy)]
pub struct Entry {
    pub resource: Resource,
    pub other_holders: u32,
}

/// Why a resource could not be taken from the table.
#[derive(Debug, PartialEq, Eq, Clone, Copy, Structural)]
pub enum TakeError {
    /// The handle names no live resource.
    BadResource,
    /// Other references to the resource are alive.
    Busy,
}

/// Resources by handle; a handle is the index of its slot, and a slot is
/// emptied when its resource is taken. Handles are never reused.
pub struct ResourceTable {
    slots: Vec<Option<Entry>>,
}

impl View for ResourceTable {
    type V = Seq<Option<Entry>>;

    closed spec fn view(&self) -> Seq<Option<Entry>> {
        self.slots@
    }
}

/// The entry under `rid`, if the handle is live.
pub open spec fn entry_at(t: Seq<Option<Entry>>, rid: u32) -> Option<Entry> {
    if (rid as int) < t.len() {
        t[rid as int]
    } else {
        None
    }
}

impl ResourceTable {
    /// An empty table.
    pub fn new() -> (r: ResourceTable)
        ensures
            r@ == Seq::<Option<Entry>>::empty(),
    {
        ResourceTable { slots: Vec::new() }
    }

    /// The entry under `rid`, if the handle is live.
    pub fn get(&self, rid: u32) -> (r: Option<Entry>)
        ensures
            r == entry_at(self@, rid),
    {
        if (rid as usize) < self.slots.len() {
            self.slots[rid as usize]
        } else {
            None
        }
    }

    /// Registers `resource` with no other holder, under a fresh handle.
    pub fn put(&mut self, resource: Resource) -> (rid: u32)
        requires
            old(self)@.len() < u32::MAX,
        ensures
            rid as int == old(self)@.len(),
            final(self)@ == old(self)@.push(Some(Entry { resource, other_holders: 0 })),
    {
        let rid = self.slots.len() as u32;
        self.slots.push(Some(Entry { resource, other_holders: 0 }));
        rid
    }

    /// Records one more reference to the resource under `rid`, held outside
    /// the table. Returns false, changing nothing, if the handle is not live
    /// or the count is at its limit.
    pub fn share(&mut self, rid: u32) -> (ok: bool)
        ensures
            ok == (entry_at(old(self)@, rid) is Some
                && entry_at(old(self)@, rid)->Some_0.other_holders < u32::MAX),
            ok ==> final(self)@ == old(self)@.update(
                rid as int,
                Some(
                    Entry {
                        other_holders: (entry_at(old(self)@, rid)->Some_0.other_holders + 1) as u32,
                        ..entry_at(old(self)@, rid)->Some_0
                    },
                ),
            ),
            !ok ==> final(self)@ == old(self)@,
    {
        match self.get(rid) {
            Some(e) => {
                if e.other_holders < u32::MAX {
                    let shared = Entry { other_holders: e.other_holders + 1, ..e };
                    self.slots.set(rid as usize, Some(shared));
                    true
                } else {
                    false
                }
            },
            None => false,
        }
    }

    /// Removes the resource under `rid` and hands it over, provided the table
    /// holds the only reference; otherwise changes nothing.
    pub fn take(&mut self, rid: u32) -> (r: Result<Resource, TakeError>)
        ensures
            match entry_at(old(self)@, rid) {
                None => r == Err::<Resource, TakeError>(TakeError::BadResource)
                    && final(self)@ == old(self)@,
                Some(e) => if e.other_holders > 0 {
                    r == Err::<Resource, TakeError>(TakeError::Busy) && final(self)@ == old(self)@
                } else {
                    r == Ok::<Resource, TakeError>(e.resource) && final(self)@ == old(self)@.update(
                        rid as int,
                        None,
                    )
                },
            },
    {
        match self.get(rid) {
            None => Err(TakeError::BadResource),
            Some(e) => {
                if e.other_holders > 0 {
                    Err(TakeError::Busy)
                } else {
                    self.slots.set(rid as usize, None);
                    Ok(e.resource)
                }
            },
        }
    }
}

} // verus!
