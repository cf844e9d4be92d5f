//! The greeting service itself: message types, the server value, and the
//! handler for its single method.

use vstd::prelude::*;
use vstd::string::*;

verus! {

/// A request to the service: the name to greet. Any text is legal, the empty
/// string included.
pub struct HelloRequest {
    pub name: String,
}

/// A reply from the service: the greeting built for the request, and the
/// identifier of the process that served it.
pub struct HelloReply {
    pub message: String,
    pub pid: i32,
}

/// The greeting the service owes a given name: exactly `"Hello "` followed by
/// the name, whatever the name holds.
pub open spec fn greeting_of(name: Seq<char>) -> Seq<char> {
    "Hello "@ + name
}

/// The server for the greeting service. It carries the identifier of the
/// process it runs in as an immutable value, injected at construction, so the
/// handler reads no hidden global.
pub struct MyHello {
    pub pid: i32,
}

/// What a reply to `name` from `server` must look like: the exact greeting,
/// and the server's process identifier.
pub open spec fn reply_matches(server: MyHello, name: Seq<char>, reply: HelloReply) -> bool {
    &&& reply.message@ == greeting_of(name)
    &&& reply.pid == server.pid
}

impl MyHello {
    /// Builds a server that will answer with the given process identifier.
    pub fn new(pid: i32) -> (server: MyHello)
        ensures
            server.pid == pid,
    {
        MyHello { pid }
    }

    /// Handles one call of the service's single method. Total: every request
    /// gets a reply, and the reply's message is exactly `"Hello "` followed by
    /// the request's name.
    pub fn say_hello(&self, request: &HelloRequest) -> (reply: HelloReply)
        ensures
            reply_matches(*self, request.name@, reply),
    {
        let mut message = String::from_str("Hello ");
        message.append(request.name.as_str());
        HelloReply { message, pid: self.pid }
    }
}

/// Law: the greeting determines the name. Two names that yield the same
/// greeting are the same name, so no two distinct requests can ever receive
/// the same message.
pub proof fn lemma_greeting_injective(n1: Seq<char>, n2: Seq<char>)
    requires
        greeting_of(n1) == greeting_of(n2),
    ensures
        n1 == n2,
{
    let p = "Hello "@;
    assert((p + n1).len() == (p + n2).len());
    assert(n1.len() == n2.len());
    assert forall|i: int| 0 <= i < n1.len() implies n1[i] == n2[i] by {
        assert((p + n1)[p.len() + i] == n1[i]);
        assert((p + n2)[p.len() + i] == n2[i]);
    }
    assert(n1 =~= n2);
}

/// Law: every reply of one server instance carries the same process
/// identifier, whatever the requests held.
pub proof fn lemma_pid_stable(
    server: MyHello,
    n1: Seq<char>,
    r1: HelloReply,
    n2: Seq<char>,
    r2: HelloReply,
)
    requires
        reply_matches(server, n1, r1),
        reply_matches(server, n2, r2),
    ensures
        r1.pid == r2.pid,
{
}

/// Law: concurrent calls cannot cross-talk. Among replies of one server
/// instance, two messages agree exactly when the names they answer agree: the
/// reply to a name is unique, and distinct names get distinct replies, so
/// each reply is paired with its own request by its content alone.
pub proof fn lemma_reply_pairs_with_request(
    server: MyHello,
    n1: Seq<char>,
    r1: HelloReply,
    n2: Seq<char>,
    r2: HelloReply,
)
    requires
        reply_matches(server, n1, r1),
        reply_matches(server, n2, r2),
    ensures
        r1.message@ == r2.message@ <==> n1 == n2,
{
    if r1.message@ == r2.message@ {
        lemma_greeting_injective(n1, n2);
    }
}

} // verus!
