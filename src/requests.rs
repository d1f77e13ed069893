//! The command synthesizer: one batch of five commands describing a new
//! routable cluster.

use vstd::prelude::*;

use crate::command::{Command, CommandKind, Request, SocketAddress};
use crate::generator::GeneratorError;
use crate::random::{is_cluster_id, random_id_of_7_chars, random_socket_address};
use crate::text::push_str;

verus! {

/// Number of commands in a batch.
pub const BATCH_LEN: usize = 5;

/// The kinds of a batch, in the order the control plane needs them.
pub open spec fn batch_kinds() -> Seq<Option<CommandKind>> {
    seq![
        Some(CommandKind::AddCluster),
        Some(CommandKind::AddHttpListener),
        Some(CommandKind::AddHttpFrontend),
        Some(CommandKind::AddBackend),
        Some(CommandKind::AddBackend),
    ]
}

/// The kinds of a sequence of requests.
pub open spec fn kinds_of(reqs: Seq<Request>) -> Seq<Option<CommandKind>> {
    reqs.map_values(|r: Request| r.spec_kind())
}

/// The hostname of a cluster: its identity followed by `.com`.
pub open spec fn hostname_of(id: Seq<char>) -> Seq<char> {
    id + ".com"@
}

/// The identity of the `n`-th backend of a cluster.
pub open spec fn backend_id_of(id: Seq<char>, n: nat) -> Seq<char> {
    if n == 1 {
        id + "_backend_1"@
    } else {
        id + "_backend_2"@
    }
}

/// The backend identity of a request, where it adds a backend.
pub open spec fn backend_id(r: Request) -> Option<Seq<char>> {
    match r.request_type {
        Some(Command::AddBackend { backend_id, .. }) => Some(backend_id@),
        _ => None,
    }
}

/// The address of a request's command, where it has one.
pub open spec fn address_of(r: Request) -> Option<SocketAddress> {
    match r.request_type {
        Some(Command::AddHttpListener { address }) => Some(address),
        Some(Command::AddHttpFrontend { address, .. }) => Some(address),
        Some(Command::AddBackend { address, .. }) => Some(address),
        _ => None,
    }
}

/// The hostname of a request, where it adds a frontend.
pub open spec fn hostname(r: Request) -> Option<Seq<char>> {
    match r.request_type {
        Some(Command::AddHttpFrontend { hostname, .. }) => Some(hostname@),
        _ => None,
    }
}

/// The cluster that a request refers to.
pub open spec fn cluster_of(r: Request) -> Option<Seq<char>> {
    match r.request_type {
        Some(c) => c.spec_cluster_id(),
        None => None,
    }
}

/// `reqs` is the batch for the cluster `id`: it adds the cluster, a listener,
/// a frontend on the listener's address for `<id>.com` and two backends
/// `<id>_backend_1` and `<id>_backend_2`, in this order.
pub open spec fn is_cluster_batch(reqs: Seq<Request>, id: Seq<char>) -> bool {
    &&& reqs.len() == BATCH_LEN
    &&& kinds_of(reqs) == batch_kinds()
    &&& cluster_of(reqs[0]) == Some(id)
    &&& cluster_of(reqs[2]) == Some(id)
    &&& cluster_of(reqs[3]) == Some(id)
    &&& cluster_of(reqs[4]) == Some(id)
    &&& address_of(reqs[2]) == address_of(reqs[1])
    &&& hostname(reqs[2]) == Some(hostname_of(id))
    &&& backend_id(reqs[3]) == Some(backend_id_of(id, 1))
    &&& backend_id(reqs[4]) == Some(backend_id_of(id, 2))
    &&& forall|i: int| 1 <= i < BATCH_LEN ==> (#[trigger] address_of(reqs[i])).unwrap().valid()
}

/// The two backend identities of a cluster differ.
pub proof fn lemma_backend_ids_distinct(id: Seq<char>)
    ensures
        backend_id_of(id, 1) != backend_id_of(id, 2),
{
    reveal_strlit("_backend_1");
    reveal_strlit("_backend_2");
    let a = backend_id_of(id, 1);
    let b = backend_id_of(id, 2);
    assert(a[id.len() + 9int] == '1');
    assert(b[id.len() + 9int] == '2');
}

/// In every batch, each frontend and backend refers to the cluster that the
/// batch adds first, and the two backends carry distinct identities that
/// extend it with `_backend_1` and `_backend_2`.
pub proof fn lemma_batch_refers_to_its_cluster(reqs: Seq<Request>, id: Seq<char>)
    requires
        is_cluster_batch(reqs, id),
    ensures
        forall|i: int|
            0 <= i < BATCH_LEN && (#[trigger] kinds_of(reqs)[i] == Some(CommandKind::AddHttpFrontend)
                || kinds_of(reqs)[i] == Some(CommandKind::AddBackend)) ==> cluster_of(reqs[i])
                == cluster_of(reqs[0]),
        backend_id(reqs[3]) != backend_id(reqs[4]),
        backend_id(reqs[3]) == Some(id + "_backend_1"@),
        backend_id(reqs[4]) == Some(id + "_backend_2"@),
{
    lemma_backend_ids_distinct(id);
    assert(kinds_of(reqs)[0] == Some(CommandKind::AddCluster));
    assert(kinds_of(reqs)[1] == Some(CommandKind::AddHttpListener));
}

/// Builds `prefix` followed by `suffix`.
fn concat(prefix: &String, suffix: &str) -> (s: String)
    ensures
        s@ == prefix@ + suffix@,
{
    let mut s = prefix.clone();
    push_str(&mut s, suffix);
    s
}

/// A batch of five commands that together add one new random cluster: the
/// cluster, a listener on a random address, a frontend for `<id>.com` on
/// that address, and two backends on random addresses.
pub fn generate_requests_for_a_random_cluster() -> (r: Result<Vec<Request>, GeneratorError>)
    ensures
        r is Ok,
        r matches Ok(reqs) ==> exists|id: Seq<char>| is_cluster_id(id) && is_cluster_batch(reqs@, id),
{
    let cluster_id = random_id_of_7_chars();
    let listener_address = random_socket_address();
    let ret = batch_for_cluster(&cluster_id, listener_address, random_socket_address(), random_socket_address());
    Ok(ret)
}

/// The batch for cluster `cluster_id`, with the listener and frontend on
/// `listener`, and the backends on `backend_1` and `backend_2`.
pub fn batch_for_cluster(
    cluster_id: &String,
    listener: SocketAddress,
    backend_1: SocketAddress,
    backend_2: SocketAddress,
) -> (reqs: Vec<Request>)
    requires
        listener.valid(),
        backend_1.valid(),
        backend_2.valid(),
    ensures
        is_cluster_batch(reqs@, cluster_id@),
        address_of(reqs@[1]) == Some(listener),
        address_of(reqs@[3]) == Some(backend_1),
        address_of(reqs@[4]) == Some(backend_2),
{
    let mut requests: Vec<Request> = Vec::new();
    requests.push(Request { request_type: Some(Command::AddCluster { cluster_id: cluster_id.clone() }) });
    requests.push(Request { request_type: Some(Command::AddHttpListener { address: listener }) });
    requests.push(
        Request {
            request_type: Some(
                Command::AddHttpFrontend {
                    cluster_id: cluster_id.clone(),
                    address: listener,
                    hostname: concat(cluster_id, ".com"),
                },
            ),
        },
    );
    requests.push(
        Request {
            request_type: Some(
                Command::AddBackend {
                    cluster_id: cluster_id.clone(),
                    backend_id: concat(cluster_id, "_backend_1"),
                    address: backend_1,
                },
            ),
        },
    );
    requests.push(
        Request {
            request_type: Some(
                Command::AddBackend {
                    cluster_id: cluster_id.clone(),
                    backend_id: concat(cluster_id, "_backend_2"),
                    address: backend_2,
                },
            ),
        },
    );
    let reqs = requests;
    assert(kinds_of(reqs@) =~= batch_kinds());
    assert forall|i: int| 1 <= i < BATCH_LEN implies (#[trigger] address_of(reqs@[i])).unwrap().valid() by {
        assert(i == 1 || i == 2 || i == 3 || i == 4);
    }
    reqs
}

} // verus!
