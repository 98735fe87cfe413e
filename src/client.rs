//! A client of the API, which always identifies itself by a User-Agent header.

use vstd::prelude::*;
use vstd::slice::slice_to_vec;

use reqwest::Error as TransportError;

use crate::error::{invalid_header_value_message, Error, ErrorView};
use crate::transport::{
    accept_any, builder_build, builder_default_headers, builder_timeout, client_builder,
    header_map_of, header_value_from_bytes, is_header_safe, transport_error_text,
    user_agent_header_name, Transport,
};

verus! {

/// The message of the error that reports an empty identifier.
pub open spec fn empty_user_agent_message() -> Seq<char> {
    "User Agent mustn't be empty"@
}

/// The text put before the transport's own description when it cannot be
/// built.
pub open spec fn transport_failure_prefix() -> Seq<char> {
    "HTTP transport could not be built: "@
}

/// The error that reports a transport that could not be built: the prefix,
/// then some description.
pub open spec fn is_transport_failure(e: ErrorView) -> bool {
    exists|text: Seq<char>| e == ErrorView::CannotCreateClient(transport_failure_prefix() + text)
}

/// The default headers of a transport configured with the given User-Agent
/// value: the transport's own `accept: */*`, and the User-Agent header.
pub open spec fn default_headers_for(user_agent: Seq<u8>) -> Map<Seq<char>, Seq<u8>> {
    map!["accept"@ => accept_any(), "user-agent"@ => user_agent]
}

/// The configuration of a [`Client`]'s transport.
pub struct ClientView {
    /// The headers sent with every request: each name, in lower case, to the
    /// bytes of its value.
    pub default_headers: Map<Seq<char>, Seq<u8>>,
    /// The value of the User-Agent header sent with every request.
    pub user_agent: Seq<u8>,
    /// The bound on each request, in milliseconds; `None` for no bound.
    pub timeout_ms: Option<u64>,
}

/// A client of the API: an HTTP transport that sends the configured
/// User-Agent header with every request.
pub struct Client {
    transport: Transport,
    user_agent: Vec<u8>,
    timeout_ms: Option<u64>,
}

impl View for Client {
    type V = ClientView;

    /// What the transport was configured with.
    closed spec fn view(&self) -> ClientView {
        ClientView {
            default_headers: self.transport.default_headers@,
            user_agent: self.transport.default_headers@["user-agent"@],
            timeout_ms: self.transport.timeout_ms@,
        }
    }
}

/// What `Client::with_timeout(user_agent, timeout_ms)` may return: the
/// identifier is checked first for emptiness, then byte by byte; once it
/// passes, a client with that configuration, unless the transport itself
/// could not be built, which is reported under its own prefix and never with
/// either message of the two checks.
pub open spec fn construction_outcome(
    user_agent: Seq<u8>,
    timeout_ms: Option<u64>,
    r: Result<Client, Error>,
) -> bool {
    if user_agent.len() == 0 {
        r matches Err(e) && e@ == ErrorView::CannotCreateClient(empty_user_agent_message())
    } else if !is_header_safe(user_agent) {
        r matches Err(e) && e@ == ErrorView::CannotCreateClient(invalid_header_value_message())
    } else {
        match r {
            Ok(c) => c@ == (ClientView {
                default_headers: default_headers_for(user_agent),
                user_agent,
                timeout_ms,
            }),
            Err(e) => {
                &&& is_transport_failure(e@)
                &&& e@ != ErrorView::CannotCreateClient(empty_user_agent_message())
                &&& e@ != ErrorView::CannotCreateClient(invalid_header_value_message())
            },
        }
    }
}

impl Client {
    #[verifier::type_invariant]
    spec fn inv(self) -> bool {
        &&& self.transport.default_headers@.contains_key("user-agent"@)
        &&& self.user_agent@ == self.transport.default_headers@["user-agent"@]
        &&& self.timeout_ms == self.transport.timeout_ms@
        &&& self.user_agent@.len() > 0
        &&& is_header_safe(self.user_agent@)
    }

    /// Create a new client with the specified value for the User-Agent header. The API requires a
    /// non-empty User-Agent header for all requests, preferably including your E621 username and
    /// the name of your project. Requests have no timeout.
    pub fn new(user_agent: &[u8]) -> (r: Result<Client, Error>)
        ensures
            construction_outcome(user_agent@, None, r),
    {
        Client::with_timeout(user_agent, None)
    }

    /// Like [`Client::new`], with a bound in milliseconds on each request, or
    /// none.
    pub fn with_timeout(user_agent: &[u8], timeout_ms: Option<u64>) -> (r: Result<Client, Error>)
        ensures
            construction_outcome(user_agent@, timeout_ms, r),
    {
        if user_agent.len() == 0 {
            return Err(Error::CannotCreateClient(String::from_str("User Agent mustn't be empty")));
        }
        let value = match header_value_from_bytes(user_agent) {
            Ok(value) => value,
            Err(e) => return Err(Error::from_invalid_header_value(&e)),
        };
        let headers = header_map_of(user_agent_header_name(), value);
        let mut builder = client_builder();
        if let Some(ms) = timeout_ms {
            builder = builder_timeout(builder, ms);
        }
        let builder = builder_default_headers(builder, headers);
        proof {
            reveal_strlit("accept");
            reveal_strlit("user-agent");
            assert(builder.default_headers@ =~= default_headers_for(user_agent@));
        }
        Client::from_transport(user_agent, timeout_ms, builder_build(builder))
    }

    /// Wraps the outcome of building the transport: a client of the given
    /// configuration, or the build failure as an error of this library.
    fn from_transport(
        user_agent: &[u8],
        timeout_ms: Option<u64>,
        built: Result<Transport, TransportError>,
    ) -> (r: Result<Client, Error>)
        requires
            user_agent@.len() > 0,
            is_header_safe(user_agent@),
            built matches Ok(t) ==> t.default_headers@ == default_headers_for(user_agent@)
                && t.timeout_ms@ == timeout_ms,
        ensures
            built is Ok <==> r is Ok,
            r matches Ok(c) ==> c@ == (ClientView {
                default_headers: default_headers_for(user_agent@),
                user_agent: user_agent@,
                timeout_ms,
            }),
            r matches Err(e) ==> {
                &&& is_transport_failure(e@)
                &&& e@ != ErrorView::CannotCreateClient(empty_user_agent_message())
                &&& e@ != ErrorView::CannotCreateClient(invalid_header_value_message())
            },
    {
        proof {
            reveal_strlit("accept");
            reveal_strlit("user-agent");
        }
        match built {
            Ok(transport) => {
                let user_agent = slice_to_vec(user_agent);
                Ok(Client { transport, user_agent, timeout_ms })
            },
            Err(e) => {
                let text = transport_error_text(&e);
                let msg = String::from_str("HTTP transport could not be built: ").concat(
                    text.as_str(),
                );
                proof {
                    reveal_strlit("HTTP transport could not be built: ");
                    reveal_strlit("User Agent mustn't be empty");
                    reveal_strlit("Invalid header value: ");
                    assert(msg@ == transport_failure_prefix() + text@);
                    assert(msg@[0] == 'H');
                    assert(empty_user_agent_message()[0] == 'U');
                    assert(invalid_header_value_message()[0] == 'I');
                }
                Err(Error::CannotCreateClient(msg))
            },
        }
    }

    /// The value of the User-Agent header that every request carries: never
    /// empty, and made of bytes allowed in a header value.
    pub fn user_agent(&self) -> (r: &[u8])
        ensures
            r@ == self@.user_agent,
            r@.len() > 0,
            is_header_safe(r@),
    {
        proof {
            use_type_invariant(self);
        }
        self.user_agent.as_slice()
    }

    /// The bound on each request, in milliseconds; `None` for no bound.
    pub fn timeout_ms(&self) -> (r: Option<u64>)
        ensures
            r == self@.timeout_ms,
    {
        proof {
            use_type_invariant(self);
        }
        self.timeout_ms
    }
}

/// Constructing twice from the same identifier gives two transports
/// configured alike: where the identifier is refused, both calls return equal
/// errors; where both calls succeed, the two transports send the same default
/// headers, the User-Agent one holding the identifier, and have no timeout.
pub proof fn lemma_new_twice_agrees(
    user_agent: &[u8],
    r1: Result<Client, Error>,
    r2: Result<Client, Error>,
)
    requires
        call_ensures(Client::new, (user_agent,), r1),
        call_ensures(Client::new, (user_agent,), r2),
    ensures
        !(user_agent@.len() > 0 && is_header_safe(user_agent@)) ==> match (r1, r2) {
            (Err(e1), Err(e2)) => e1@ == e2@,
            _ => false,
        },
        match (r1, r2) {
            (Ok(c1), Ok(c2)) => {
                &&& c1@ == c2@
                &&& c1@.default_headers == default_headers_for(user_agent@)
                &&& c1@.user_agent == user_agent@
                &&& c1@.timeout_ms == None::<u64>
            },
            _ => true,
        },
{
}

} // verus!
