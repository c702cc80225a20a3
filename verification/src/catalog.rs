//! The command catalog: the read-only table of callable methods and their
//! parameter metadata, together with prefix search over method names.

use vstd::prelude::*;
use crate::text::{is_prefix, str_has_prefix, str_to_chars};

verus! {

/// Metadata for one positional parameter of a method.
pub struct Parameter {
    pub name: &'static str,
    pub description: &'static str,
    pub optional: bool,
    pub default: Option<&'static str>,
}

/// One callable method of the remote API, with its ordered parameters.
pub struct XrpcCommand {
    pub method: &'static str,
    pub description: &'static str,
    pub parameters: Vec<Parameter>,
    pub encoding: &'static str,
}

/// The mathematical model of a `Parameter`.
#[verifier::ext_equal]
pub struct ParamView {
    pub name: Seq<char>,
    pub description: Seq<char>,
    pub optional: bool,
    pub default: Option<Seq<char>>,
}

/// The mathematical model of an `XrpcCommand`.
#[verifier::ext_equal]
pub struct CommandView {
    pub method: Seq<char>,
    pub description: Seq<char>,
    pub parameters: Seq<ParamView>,
    pub encoding: Seq<char>,
}

impl View for Parameter {
    type V = ParamView;

    open spec fn view(&self) -> ParamView {
        ParamView {
            name: self.name@,
            description: self.description@,
            optional: self.optional,
            default: match self.default {
                Some(d) => Some(d@),
                None => None,
            },
        }
    }
}

impl View for XrpcCommand {
    type V = CommandView;

    open spec fn view(&self) -> CommandView {
        CommandView {
            method: self.method@,
            description: self.description@,
            parameters: self.parameters@.map_values(|p: Parameter| p@),
            encoding: self.encoding@,
        }
    }
}

/// The models of a list of commands.
pub open spec fn views_of(cmds: Seq<XrpcCommand>) -> Seq<CommandView> {
    cmds.map_values(|c: XrpcCommand| c@)
}

/// Shorthand for a parameter model.
pub open spec fn pv(
    name: Seq<char>,
    description: Seq<char>,
    optional: bool,
    default: Option<Seq<char>>,
) -> ParamView {
    ParamView { name, description, optional, default }
}

/// The full catalog, as consulted by autocomplete, the wizard and the
/// dispatcher. Order is the display and selection order.
pub open spec fn catalog() -> Seq<CommandView> {
    seq![
        CommandView {
            method: "app.bsky.actor.getProfile"@,
            description: "Get an actor's profile details"@,
            parameters: seq![
                pv("actor"@, "The handle or DID of the actor"@, false, None),
            ],
            encoding: "application/json"@,
        },
        CommandView {
            method: "app.bsky.feed.getTimeline"@,
            description: "Get the user's home timeline"@,
            parameters: seq![
                pv("limit"@, "Number of results to return"@, true, Some("50"@)),
                pv("cursor"@, "Pagination cursor from previous response"@, true, None),
            ],
            encoding: "application/json"@,
        },
        CommandView {
            method: "com.atproto.identity.resolveHandle"@,
            description: "Resolve a handle (domain name) to a DID"@,
            parameters: seq![
                pv("handle"@, "The handle to resolve"@, false, None),
            ],
            encoding: "application/json"@,
        },
        CommandView {
            method: "app.bsky.feed.getPostThread"@,
            description: "Get a thread of posts by a post URI"@,
            parameters: seq![
                pv("uri"@, "The URI of the post used as entry point"@, false, None),
                pv(
                    "depth"@,
                    "How many levels of reply depth should be included in the response"@,
                    true,
                    Some("6"@),
                ),
                pv(
                    "parentHeight"@,
                    "How many levels of parent (and grandparent, etc) post to include"@,
                    true,
                    Some("80"@),
                ),
            ],
            encoding: "application/json"@,
        },
        CommandView {
            method: "app.bsky.feed.getAuthorFeed"@,
            description: "Get a feed of posts by an actor"@,
            parameters: seq![
                pv("actor"@, "The handle or DID of the author"@, false, None),
                pv("limit"@, "Number of results"@, true, Some("50"@)),
                pv("cursor"@, "Pagination cursor"@, true, None),
            ],
            encoding: "application/json"@,
        },
        CommandView {
            method: "app.bsky.graph.getFollowers"@,
            description: "Get a list of an actor's followers"@,
            parameters: seq![
                pv("actor"@, "The handle or DID of the actor"@, false, None),
                pv("limit"@, "Number of results"@, true, Some("50"@)),
                pv("cursor"@, "Pagination cursor"@, true, None),
            ],
            encoding: "application/json"@,
        },
        CommandView {
            method: "com.atproto.repo.importRepo"@,
            description: "Import a repo in the form of a car file."@,
            parameters: seq![
                pv(""@, "Path to the car file"@, false, None),
            ],
            encoding: "application/vnd.ipld.car"@,
        },
        CommandView {
            method: "com.atproto.server.describeServer"@,
            description: "Describes the server's account creation requirements and capabilities."@,
            parameters: Seq::empty(),
            encoding: "application/json"@,
        },
        CommandView {
            method: "app.bsky.graph.getFollowers"@,
            description: "Get a list of an actor's followers"@,
            parameters: seq![
                pv("actor"@, "The handle or DID of the actor"@, false, None),
                pv("limit"@, "Number of results"@, true, Some("50"@)),
                pv("cursor"@, "Pagination cursor"@, true, None),
            ],
            encoding: "application/json"@,
        },
        CommandView {
            method: "com.atproto.sync.listBlobs"@,
            description: "List of blob CIDs for an account"@,
            parameters: seq![
                pv("did"@, "The handle or DID of the actor"@, false, None),
                pv("since"@, "optional revision of repo to list blobs since"@, true, None),
                pv("limit"@, "Number of results"@, true, Some("500"@)),
                pv("cursor"@, "Pagination cursor"@, true, None),
            ],
            encoding: "application/json"@,
        },
        CommandView {
            method: "com.atproto.sync.getBlob"@,
            description: "Get a blob associated with a given account. Returns the full blob as originally uploaded."@,
            parameters: seq![
                pv("did"@, "The handle or DID of the actor"@, false, None),
                pv("cid"@, "The CID of the blob to fetch"@, false, None),
            ],
            encoding: "*/*"@,
        },
    ]
}

/// Builds the catalog as an executable value. Every consumer goes through
/// this function, so the model below is the single description of the table.
pub fn available_commands() -> (r: Vec<XrpcCommand>)
    ensures
        views_of(r@) == catalog(),
{
    let mut cmds: Vec<XrpcCommand> = Vec::new();

    let mut p: Vec<Parameter> = Vec::new();
    p.push(Parameter {
        name: "actor",
        description: "The handle or DID of the actor",
        optional: false,
        default: None,
    });
    cmds.push(XrpcCommand {
        method: "app.bsky.actor.getProfile",
        description: "Get an actor's profile details",
        parameters: p,
        encoding: "application/json",
    });

    let mut p: Vec<Parameter> = Vec::new();
    p.push(Parameter {
        name: "limit",
        description: "Number of results to return",
        optional: true,
        default: Some("50"),
    });
    p.push(Parameter {
        name: "cursor",
        description: "Pagination cursor from previous response",
        optional: true,
        default: None,
    });
    cmds.push(XrpcCommand {
        method: "app.bsky.feed.getTimeline",
        description: "Get the user's home timeline",
        parameters: p,
        encoding: "application/json",
    });

    let mut p: Vec<Parameter> = Vec::new();
    p.push(Parameter {
        name: "handle",
        description: "The handle to resolve",
        optional: false,
        default: None,
    });
    cmds.push(XrpcCommand {
        method: "com.atproto.identity.resolveHandle",
        description: "Resolve a handle (domain name) to a DID",
        parameters: p,
        encoding: "application/json",
    });

    let mut p: Vec<Parameter> = Vec::new();
    p.push(Parameter {
        name: "uri",
        description: "The URI of the post used as entry point",
        optional: false,
        default: None,
    });
    p.push(Parameter {
        name: "depth",
        description: "How many levels of reply depth should be included in the response",
        optional: true,
        default: Some("6"),
    });
    p.push(Parameter {
        name: "parentHeight",
        description: "How many levels of parent (and grandparent, etc) post to include",
        optional: true,
        default: Some("80"),
    });
    cmds.push(XrpcCommand {
        method: "app.bsky.feed.getPostThread",
        description: "Get a thread of posts by a post URI",
        parameters: p,
        encoding: "application/json",
    });

    let mut p: Vec<Parameter> = Vec::new();
    p.push(Parameter {
        name: "actor",
        description: "The handle or DID of the author",
        optional: false,
        default: None,
    });
    p.push(Parameter {
        name: "limit",
        description: "Number of results",
        optional: true,
        default: Some("50"),
    });
    p.push(Parameter {
        name: "cursor",
        description: "Pagination cursor",
        optional: true,
        default: None,
    });
    cmds.push(XrpcCommand {
        method: "app.bsky.feed.getAuthorFeed",
        description: "Get a feed of posts by an actor",
        parameters: p,
        encoding: "application/json",
    });

    cmds.push(followers_command());

    let mut p: Vec<Parameter> = Vec::new();
    p.push(Parameter {
        name: "",
        description: "Path to the car file",
        optional: false,
        default: None,
    });
    cmds.push(XrpcCommand {
        method: "com.atproto.repo.importRepo",
        description: "Import a repo in the form of a car file.",
        parameters: p,
        encoding: "application/vnd.ipld.car",
    });

    let p: Vec<Parameter> = Vec::new();
    cmds.push(XrpcCommand {
        method: "com.atproto.server.describeServer",
        description: "Describes the server's account creation requirements and capabilities.",
        parameters: p,
        encoding: "application/json",
    });

    cmds.push(followers_command());

    let mut p: Vec<Parameter> = Vec::new();
    p.push(Parameter {
        name: "did",
        description: "The handle or DID of the actor",
        optional: false,
        default: None,
    });
    p.push(Parameter {
        name: "since",
        description: "optional revision of repo to list blobs since",
        optional: true,
        default: None,
    });
    p.push(Parameter {
        name: "limit",
        description: "Number of results",
        optional: true,
        default: Some("500"),
    });
    p.push(Parameter {
        name: "cursor",
        description: "Pagination cursor",
        optional: true,
        default: None,
    });
    cmds.push(XrpcCommand {
        method: "com.atproto.sync.listBlobs",
        description: "List of blob CIDs for an account",
        parameters: p,
        encoding: "application/json",
    });

    let mut p: Vec<Parameter> = Vec::new();
    p.push(Parameter {
        name: "did",
        description: "The handle or DID of the actor",
        optional: false,
        default: None,
    });
    p.push(Parameter {
        name: "cid",
        description: "The CID of the blob to fetch",
        optional: false,
        default: None,
    });
    cmds.push(XrpcCommand {
        method: "com.atproto.sync.getBlob",
        description: "Get a blob associated with a given account. Returns the full blob as originally uploaded.",
        parameters: p,
        encoding: "*/*",
    });

    assert(views_of(cmds@) =~~= catalog());
    cmds
}

/// The follower-listing entry, which the catalog carries twice.
fn followers_command() -> (r: XrpcCommand)
    ensures
        r@ == (CommandView {
            method: "app.bsky.graph.getFollowers"@,
            description: "Get a list of an actor's followers"@,
            parameters: seq![
                pv("actor"@, "The handle or DID of the actor"@, false, None),
                pv("limit"@, "Number of results"@, true, Some("50"@)),
                pv("cursor"@, "Pagination cursor"@, true, None),
            ],
            encoding: "application/json"@,
        }),
{
    let mut p: Vec<Parameter> = Vec::new();
    p.push(Parameter {
        name: "actor",
        description: "The handle or DID of the actor",
        optional: false,
        default: None,
    });
    p.push(Parameter {
        name: "limit",
        description: "Number of results",
        optional: true,
        default: Some("50"),
    });
    p.push(Parameter {
        name: "cursor",
        description: "Pagination cursor",
        optional: true,
        default: None,
    });
    let r = XrpcCommand {
        method: "app.bsky.graph.getFollowers",
        description: "Get a list of an actor's followers",
        parameters: p,
        encoding: "application/json",
    };
    assert(r@.parameters =~= seq![
        pv("actor"@, "The handle or DID of the actor"@, false, None),
        pv("limit"@, "Number of results"@, true, Some("50"@)),
        pv("cursor"@, "Pagination cursor"@, true, None),
    ]);
    r
}

/// The first catalog position whose method equals `m`, searching from `i`.
pub open spec fn find_method_from(cat: Seq<CommandView>, m: Seq<char>, i: int) -> Option<int>
    decreases cat.len() - i when 0 <= i <= cat.len()
{
    if i < 0 || i >= cat.len() {
        None
    } else if cat[i].method == m {
        Some(i)
    } else {
        find_method_from(cat, m, i + 1)
    }
}

/// The first catalog position whose method equals `m`.
pub open spec fn find_method(cat: Seq<CommandView>, m: Seq<char>) -> Option<int> {
    find_method_from(cat, m, 0)
}

/// What a successful or failed catalog search means.
pub proof fn lemma_find_method(cat: Seq<CommandView>, m: Seq<char>, i: int)
    requires
        0 <= i <= cat.len(),
    ensures
        match find_method_from(cat, m, i) {
            Some(k) => i <= k < cat.len() && cat[k].method == m
                && forall|j: int| i <= j < k ==> cat[j].method != m,
            None => forall|j: int| i <= j < cat.len() ==> cat[j].method != m,
        },
    decreases cat.len() - i,
{
    if i < cat.len() && cat[i].method != m {
        lemma_find_method(cat, m, i + 1);
    }
}

/// Looks `method` up in the command list; the result is the first position
/// with that method name, if any.
pub fn find_index(cmds: &Vec<XrpcCommand>, method: &Vec<char>) -> (r: Option<usize>)
    ensures
        match r {
            Some(i) => find_method(views_of(cmds@), method@) == Some(i as int),
            None => find_method(views_of(cmds@), method@) is None,
        },
{
    let ghost cat = views_of(cmds@);
    let mut i: usize = 0;
    while i < cmds.len()
        invariant
            i <= cmds@.len(),
            cat == views_of(cmds@),
            cat.len() == cmds@.len(),
            find_method_from(cat, method@, 0) == find_method_from(cat, method@, i as int),
        decreases cmds@.len() - i,
    {
        if crate::text::eq_chars_str(method, cmds[i].method) {
            assert(cat[i as int].method == method@);
            return Some(i);
        }
        assert(cat[i as int].method != method@);
        i = i + 1;
    }
    None
}

/// The catalog methods that begin with `prefix`, in catalog order.
pub open spec fn matching_methods(cat: Seq<CommandView>, prefix: Seq<char>) -> Seq<Seq<char>>
    decreases cat.len(),
{
    if cat.len() == 0 {
        Seq::empty()
    } else {
        matching_methods(cat.drop_last(), prefix) + (if is_prefix(prefix, cat.last().method) {
            seq![cat.last().method]
        } else {
            Seq::empty()
        })
    }
}

/// Every match begins with the prefix and names a catalog method.
pub proof fn lemma_matching_subset(cat: Seq<CommandView>, prefix: Seq<char>)
    ensures
        forall|k: int|
            0 <= k < matching_methods(cat, prefix).len() ==> {
                &&& is_prefix(prefix, #[trigger] matching_methods(cat, prefix)[k])
                &&& exists|j: int|
                    0 <= j < cat.len() && cat[j].method == matching_methods(cat, prefix)[k]
            },
    decreases cat.len(),
{
    if cat.len() > 0 {
        lemma_matching_subset(cat.drop_last(), prefix);
        assert forall|k: int| 0 <= k < matching_methods(cat, prefix).len() implies {
            &&& is_prefix(prefix, #[trigger] matching_methods(cat, prefix)[k])
            &&& exists|j: int|
                0 <= j < cat.len() && cat[j].method == matching_methods(cat, prefix)[k]
        } by {
            let sub = matching_methods(cat.drop_last(), prefix);
            if k < sub.len() {
                let j = choose|j: int|
                    0 <= j < cat.drop_last().len() && cat.drop_last()[j].method == sub[k];
                assert(cat[j].method == matching_methods(cat, prefix)[k]);
            } else {
                assert(matching_methods(cat, prefix)[k] == cat.last().method);
                assert(cat[cat.len() - 1].method == matching_methods(cat, prefix)[k]);
            }
        }
    }
}

/// Computes the ordered matches of `prefix` against the command list.
pub fn compute_matches(cmds: &Vec<XrpcCommand>, prefix: &Vec<char>) -> (r: Vec<Vec<char>>)
    ensures
        r.deep_view() == matching_methods(views_of(cmds@), prefix@),
{
    let ghost cat = views_of(cmds@);
    let mut out: Vec<Vec<char>> = Vec::new();
    let mut i: usize = 0;
    while i < cmds.len()
        invariant
            i <= cmds@.len(),
            cat == views_of(cmds@),
            cat.len() == cmds@.len(),
            out.deep_view() == matching_methods(cat.take(i as int), prefix@),
        decreases cmds@.len() - i,
    {
        let ghost pre = cat.take(i as int);
        let ghost cur = cat.take(i + 1);
        assert(cur.drop_last() =~= pre);
        assert(cur.last() == cat[i as int]);
        if str_has_prefix(cmds[i].method, prefix) {
            out.push(str_to_chars(cmds[i].method));
            assert(out.deep_view() =~~= matching_methods(cur, prefix@));
        } else {
            assert(matching_methods(cur, prefix@) =~= matching_methods(pre, prefix@));
        }
        i = i + 1;
    }
    assert(cat.take(cmds@.len() as int) =~= cat);
    out
}

} // verus!
