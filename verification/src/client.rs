//! GraphQL request wrapper: endpoint resolution and response handling.
//!
//! The HTTP transport itself (building the request, the authentication
//! header, the blocking send) is the caller's collaborator; this module holds
//! what can be decided from plain values: which endpoint a client talks to,
//! and what a decoded response envelope means — data on success, or one
//! aggregated application-level error when the endpoint reported a structured
//! error list.
use vstd::prelude::*;
use vstd::string::StringExecFns;

verus! {

/// The fixed well-known endpoint used when the caller supplies none.
pub open spec fn default_endpoint() -> Seq<char> {
    "https://graphql.api.apollographql.com/api/graphql"@
}

/// Represents a client for making GraphQL requests: the credential sent with
/// each request and the endpoint they go to. The transport that carries the
/// requests is owned by the caller alongside this value.
pub struct Client {
    pub api_key: String,
    pub uri: String,
}

impl Client {
    /// Construct a new [`Client`] from an `api_key` and an optional `uri`.
    /// When the uri is `None`, the default well-known endpoint is used.
    pub fn new(api_key: String, uri: Option<String>) -> (c: Client)
        ensures
            c.api_key@ == api_key@,
            match uri {
                Some(u) => c.uri@ == u@,
                None => c.uri@ == default_endpoint(),
            },
    {
        let studio_uri = match uri {
            Some(uri) => uri,
            None => String::from_str("https://graphql.api.apollographql.com/api/graphql"),
        };
        Client { api_key, uri: studio_uri }
    }
}

/// How a GraphQL request fails.
#[derive(Debug, PartialEq)]
pub enum RequestFailure {
    /// The endpoint could not be reached at all.
    RequestError { msg: String },
    /// The response body was not a valid envelope.
    ResponseError { msg: String },
    /// The endpoint executed the request but reported semantic errors; all
    /// their messages, newline-joined.
    GraphQLError { msg: String },
}

/// A decoded GraphQL response envelope: optional data, and an optional list
/// of error messages, as the endpoint sent them.
pub struct GraphQlResponse<D> {
    pub data: Option<D>,
    pub errors: Option<Vec<String>>,
}

/// The newline-joined concatenation of `msgs`.
pub open spec fn joined_messages(msgs: Seq<Seq<char>>) -> Seq<char>
    decreases msgs.len(),
{
    if msgs.len() == 0 {
        Seq::empty()
    } else if msgs.len() == 1 {
        msgs[0]
    } else {
        msgs[0] + seq!['\n'] + joined_messages(msgs.drop_first())
    }
}

/// Appending one more message to the list appends it to the joined text,
/// behind a newline unless it is the first.
proof fn lemma_joined_push(s: Seq<Seq<char>>, x: Seq<char>)
    ensures
        s.len() == 0 ==> joined_messages(s.push(x)) == x,
        s.len() > 0 ==> joined_messages(s.push(x)) =~= joined_messages(s) + seq!['\n'] + x,
    decreases s.len(),
{
    let p = s.push(x);
    if s.len() == 0 {
        assert(p.len() == 1);
        assert(p[0] == x);
    } else {
        lemma_joined_push(s.drop_first(), x);
        assert(p[0] == s[0]);
        assert(p.drop_first() =~= s.drop_first().push(x));
        if s.len() == 1 {
            assert(joined_messages(s) == s[0]);
            assert(joined_messages(p) =~= s[0] + seq!['\n'] + x);
        }
    }
}

/// Join a list of error messages into the single user-facing explanation,
/// one message per line.
pub fn join_messages(msgs: &Vec<String>) -> (r: String)
    ensures
        r@ == joined_messages(msgs@.map_values(|s: String| s@)),
{
    let ghost all = msgs@.map_values(|s: String| s@);
    let mut out = String::new();
    let mut i: usize = 0;
    while i < msgs.len()
        invariant
            0 <= i <= msgs.len(),
            all == msgs@.map_values(|s: String| s@),
            all.len() == msgs@.len(),
            out@ == joined_messages(all.take(i as int)),
        decreases msgs.len() - i,
    {
        proof {
            reveal_strlit("\n");
        }
        let ghost prev = all.take(i as int);
        if i > 0 {
            out.append("\n");
        }
        out.append(msgs[i].as_str());
        proof {
            lemma_joined_push(prev, all[i as int]);
            assert(prev.push(all[i as int]) =~= all.take(i as int + 1));
            if i == 0 {
                assert(prev.len() == 0);
                assert(out@ =~= all[0]);
            } else {
                assert(out@ =~= joined_messages(prev) + seq!['\n'] + all[i as int]);
            }
        }
        i = i + 1;
    }
    proof {
        assert(all.take(i as int) =~= all);
    }
    out
}

/// Decide what a decoded response envelope means. An envelope with an error
/// list fails with one `GraphQLError` whose message newline-joins every
/// reported message (the structure is discarded at this boundary by design);
/// an envelope without one succeeds with whatever data it carried.
pub fn handle_response<D>(response: GraphQlResponse<D>) -> (r: Result<Option<D>, RequestFailure>)
    ensures
        match response.errors {
            Some(msgs) => r matches Err(e) && e matches RequestFailure::GraphQLError { msg }
                && msg@ == joined_messages(msgs@.map_values(|s: String| s@)),
            None => r == Ok::<Option<D>, RequestFailure>(response.data),
        },
{
    match response.errors {
        Some(errs) => Err(RequestFailure::GraphQLError { msg: join_messages(&errs) }),
        None => Ok(response.data),
    }
}

} // verus!
