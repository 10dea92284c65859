use crate::resource::{entry_at, Connection, Entry, Resource, ResourceTable, StreamKind, TakeError};
use vstd::prelude::*;

verus! {

/// Why a stream could not be upgraded to an HTTP connection.
#[derive(Debug, PartialEq, Eq, Clone, Copy, Structural)]
pub enum HttpStartError {
    /// The TCP stream has other live references.
    TcpStreamInUse,
    /// The TLS stream has other live references.
    TlsStreamInUse,
    /// The Unix socket has other live references.
    UnixSocketInUse,
    /// The halves of the TCP stream come from different streams.
    ReuniteTcp,
    /// The halves of the Unix socket come from different streams.
    ReuniteUnix,
    /// Reading the local address failed with this native error code.
    Io(i32),
    /// The handle names no stream.
    BadResourceId,
}

/// The scheme under which a connection of this kind is served.
pub open spec fn scheme_of(kind: StreamKind) -> Seq<char> {
    match kind {
        StreamKind::Tcp => "http"@,
        StreamKind::Tls => "https"@,
        StreamKind::Unix => "http+unix"@,
    }
}

/// The scheme under which a connection of this kind is served.
pub fn scheme(kind: StreamKind) -> (r: &'static str)
    ensures
        r@ == scheme_of(kind),
{
    match kind {
        StreamKind::Tcp => "http",
        StreamKind::Tls => "https",
        StreamKind::Unix => "http+unix",
    }
}

/// The error for a stream of this kind that is in use elsewhere.
pub open spec fn busy_error(kind: StreamKind) -> HttpStartError {
    match kind {
        StreamKind::Tcp => HttpStartError::TcpStreamInUse,
        StreamKind::Tls => HttpStartError::TlsStreamInUse,
        StreamKind::Unix => HttpStartError::UnixSocketInUse,
    }
}

/// Whether the two halves can be joined again. TLS halves are always
/// joined; TCP and Unix halves only when they come from one stream.
pub open spec fn reunites(kind: StreamKind, read_half: u64, write_half: u64) -> bool {
    kind == StreamKind::Tls || read_half == write_half
}

/// What upgrading the stream under `rid` in table `t` returns.
pub open spec fn start_result(t: Seq<Option<Entry>>, rid: u32) -> Result<u32, HttpStartError> {
    match entry_at(t, rid) {
        Some(Entry { resource: Resource::Stream(s), other_holders }) => {
            if other_holders > 0 {
                Err(busy_error(s.kind))
            } else if !reunites(s.kind, s.read_half, s.write_half) {
                if s.kind == StreamKind::Tcp {
                    Err(HttpStartError::ReuniteTcp)
                } else {
                    Err(HttpStartError::ReuniteUnix)
                }
            } else {
                match s.local_addr {
                    Ok(_) => Ok(t.len() as u32),
                    Err(code) => Err(HttpStartError::Io(code)),
                }
            }
        },
        _ => Err(HttpStartError::BadResourceId),
    }
}

/// The table after upgrading the stream under `rid`: a stream that was taken
/// is gone, whatever followed; a connection is registered on success.
pub open spec fn start_table(t: Seq<Option<Entry>>, rid: u32) -> Seq<Option<Entry>> {
    match entry_at(t, rid) {
        Some(Entry { resource: Resource::Stream(s), other_holders }) => {
            if other_holders > 0 {
                t
            } else {
                let taken = t.update(rid as int, None);
                if reunites(s.kind, s.read_half, s.write_half) && s.local_addr is Ok {
                    taken.push(
                        Some(
                            Entry {
                                resource: Resource::Connection(
                                    Connection {
                                        stream: s.read_half,
                                        addr: s.local_addr->Ok_0,
                                        kind: s.kind,
                                    },
                                ),
                                other_holders: 0,
                            },
                        ),
                    )
                } else {
                    taken
                }
            }
        },
        _ => t,
    }
}

/// Upgrades the duplex stream under `rid` (TCP, TLS or Unix socket) to an
/// HTTP connection: takes it exclusively, joins its halves, reads its local
/// address and registers the connection under a new handle.
pub fn op_http_start(table: &mut ResourceTable, rid: u32) -> (r: Result<u32, HttpStartError>)
    requires
        old(table)@.len() < u32::MAX,
    ensures
        r == start_result(old(table)@, rid),
        final(table)@ == start_table(old(table)@, rid),
{
    let kind = match table.get(rid) {
        Some(Entry { resource: Resource::Stream(s), .. }) => s.kind,
        _ => return Err(HttpStartError::BadResourceId),
    };
    let s = match table.take(rid) {
        Ok(Resource::Stream(s)) => s,
        Err(TakeError::Busy) => {
            return Err(
                match kind {
                    StreamKind::Tcp => HttpStartError::TcpStreamInUse,
                    StreamKind::Tls => HttpStartError::TlsStreamInUse,
                    StreamKind::Unix => HttpStartError::UnixSocketInUse,
                },
            );
        },
        _ => return Err(HttpStartError::BadResourceId),
    };
    if s.kind != StreamKind::Tls && s.read_half != s.write_half {
        return Err(
            if s.kind == StreamKind::Tcp {
                HttpStartError::ReuniteTcp
            } else {
                HttpStartError::ReuniteUnix
            },
        );
    }
    let addr = match s.local_addr {
        Ok(a) => a,
        Err(code) => return Err(HttpStartError::Io(code)),
    };
    let conn = Connection { stream: s.read_half, addr, kind: s.kind };
    Ok(table.put(Resource::Connection(conn)))
}

/// A stream with another live reference is not upgraded: the result is the
/// busy error of its kind and the table, its handle included, is unchanged.
pub proof fn lemma_busy_stream_is_kept(t: Seq<Option<Entry>>, rid: u32)
    requires
        entry_at(t, rid) matches Some(Entry { resource: Resource::Stream(_), other_holders })
            && other_holders > 0,
    ensures
        start_result(t, rid) == Err::<u32, HttpStartError>(
            busy_error(entry_at(t, rid)->Some_0.resource->Stream_0.kind),
        ),
        start_table(t, rid) == t,
        entry_at(start_table(t, rid), rid) == entry_at(t, rid),
{
}

/// Upgrade is one-shot: the handle that a successful upgrade returns names
/// a connection, and upgrading it fails with a bad-resource error.
pub proof fn lemma_upgrade_is_one_shot(t: Seq<Option<Entry>>, rid: u32)
    requires
        t.len() < u32::MAX,
        start_result(t, rid) is Ok,
    ensures
        ({
            let t2 = start_table(t, rid);
            let new_rid = start_result(t, rid)->Ok_0;
            &&& entry_at(t2, new_rid) matches Some(Entry { resource: Resource::Connection(_), .. })
            &&& start_result(t2, new_rid) == Err::<u32, HttpStartError>(
                HttpStartError::BadResourceId,
            )
            &&& start_table(t2, new_rid) == t2
        }),
{
}

} // verus!
