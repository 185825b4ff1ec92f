//! The request router: a tree of named nodes, each with a handler function
//! and an ordered list of child nodes.
//!
//! A request is dispatched from a node with a current path. The children are
//! tried in the order in which they were added; the first child whose path
//! (the current path with the child's name pushed) is a prefix of the
//! request's path takes the request, however well a later sibling would fit.
//! Where no child takes it, the node's own handler runs if the current path
//! is the request's path, and the request is not found otherwise.

use vstd::prelude::*;
use vstd::string::StringExecFns;
use bevy::prelude::World;
use crate::http_message::HttpHeader;
use crate::http_message::HttpRequest;
use crate::http_message::HttpResponse;
use crate::http_message::INTERNAL_SERVER_ERROR;
use crate::http_message::NOT_FOUND;
use crate::http_path::contains_separator;
use crate::http_path::has_separator;
use crate::http_path::is_root_text;
use crate::http_path::parse_spec;
use crate::http_path::push_spec;
use crate::http_path::starts_with_spec;
use crate::http_path::HttpPath;
use crate::http_path::SEPARATOR;
use crate::text::decimal;
use crate::text::decimal_spec;

verus! {

/// `bevy::prelude::World`: the world of the host, which a handler may read
/// and change. The router hands it through; nothing is claimed of what is
/// inside.
#[verifier::external_type_specification]
#[verifier::external_body]
pub struct ExWorld(World);

/// The plain function type of a handler.
pub type HttpRequestHandlerFn = fn(&mut World, &HttpRequest) -> Result<HttpResponse, u16>;

/// A node of the router.
pub struct HttpRequestHandler<F = HttpRequestHandlerFn> {
    dir_name: String,
    function: F,
    children: Vec<HttpRequestHandler<F>>,
}

/// Why a tree cannot serve as the router of a server.
#[derive(Clone, Copy, Debug, PartialEq, Eq, Structural)]
pub enum RouterError {
    /// The root's name is not `"/"`.
    RootName,
    /// The name of a node below the root holds a separator.
    ChildName,
}

/// The child at `index` is the first whose path is a prefix of `request`.
pub open spec fn selects<F>(
    nodes: Seq<HttpRequestHandler<F>>,
    current: Seq<Seq<char>>,
    request: Seq<Seq<char>>,
    index: int,
) -> bool {
    &&& 0 <= index < nodes.len()
    &&& starts_with_spec(request, push_spec(current, nodes[index].name()))
    &&& forall|j: int|
        0 <= j < index ==> !starts_with_spec(request, push_spec(current, #[trigger] nodes[j].name()))
}

/// The node whose handler answers `request` when the dispatch starts at
/// `node` with the path `current`, if there is one.
pub open spec fn route_spec<F>(
    node: HttpRequestHandler<F>,
    current: Seq<Seq<char>>,
    request: Seq<Seq<char>>,
) -> Option<HttpRequestHandler<F>>
    decreases node.depth(),
    via route_decreases::<F>
{
    if exists|i: int| selects(node.nodes(), current, request, i) {
        let i = choose|i: int| selects(node.nodes(), current, request, i);
        route_spec(node.nodes()[i], push_spec(current, node.nodes()[i].name()), request)
    } else if current == request {
        Some(node)
    } else {
        None
    }
}

#[via_fn]
proof fn route_decreases<F>(
    node: HttpRequestHandler<F>,
    current: Seq<Seq<char>>,
    request: Seq<Seq<char>>,
) {
    if exists|i: int| selects(node.nodes(), current, request, i) {
        let i = choose|i: int| selects(node.nodes(), current, request, i);
        node.lemma_child_depth(i);
    }
}

/// `copy` has the names and the shape of `node`, and at each node a clone of
/// the handler that `node` has there.
pub open spec fn mirrors<F: Clone>(copy: HttpRequestHandler<F>, node: HttpRequestHandler<F>) -> bool
    decreases node.depth(),
    via mirrors_decreases::<F>
{
    &&& copy.name() == node.name()
    &&& cloned::<F>(node.handler(), copy.handler())
    &&& copy.nodes().len() == node.nodes().len()
    &&& forall|i: int|
        0 <= i < node.nodes().len() ==> mirrors(copy.nodes()[i], #[trigger] node.nodes()[i])
}

#[via_fn]
proof fn mirrors_decreases<F: Clone>(copy: HttpRequestHandler<F>, node: HttpRequestHandler<F>) {
    assert forall|i: int| 0 <= i < node.nodes().len() implies (#[trigger] node.nodes()[i]).depth()
        < node.depth() by {
        node.lemma_child_depth(i);
    }
}

/// The status that an error response carries for the status that a handler
/// failed with: that status where it is a status code, a number of three
/// digits, and `INTERNAL_SERVER_ERROR` otherwise.
pub open spec fn error_status_spec(status: u16) -> u16 {
    if 100 <= status <= 999 {
        status
    } else {
        INTERNAL_SERVER_ERROR
    }
}

/// The text of the body of a synthesized error response: the code in
/// decimal and, where the status has a reason, a space and the reason.
pub open spec fn error_message_spec(status: u16, reason: Option<Seq<char>>) -> Seq<char> {
    match reason {
        Some(reason) => decimal_spec(status as nat).push(' ') + reason,
        None => decimal_spec(status as nat),
    }
}

/// The text of a reason, if there is one.
pub open spec fn reason_spec(reason: Option<&str>) -> Option<Seq<char>> {
    match reason {
        Some(reason) => Some(reason@),
        None => None,
    }
}

/// The status that an error response carries for the status that a handler
/// failed with.
pub fn error_status(status: u16) -> (reported: u16)
    ensures
        reported == error_status_spec(status),
{
    if 100 <= status && status <= 999 {
        status
    } else {
        INTERNAL_SERVER_ERROR
    }
}

impl<F> HttpRequestHandler<F> {
    /// The node's name: one segment of a path.
    pub closed spec fn name(&self) -> Seq<char> {
        self.dir_name@
    }

    /// The node's handler function.
    pub closed spec fn handler(&self) -> F {
        self.function
    }

    /// The node's children, in the order in which they were added.
    pub closed spec fn nodes(&self) -> Seq<HttpRequestHandler<F>> {
        self.children@
    }

    /// The height of the tree below the node: 0 for a node without child,
    /// and one more than the greatest height among its children otherwise.
    pub closed spec fn depth(&self) -> nat
        decreases self,
    {
        Self::depth_of(self.children@)
    }

    /// One more than the greatest height among `nodes`, 0 for none.
    pub closed spec fn depth_of(nodes: Seq<HttpRequestHandler<F>>) -> nat
        decreases nodes,
    {
        if nodes.len() == 0 {
            0
        } else {
            let rest = Self::depth_of(nodes.drop_last());
            let last = nodes.last().depth() + 1;
            if last > rest {
                last
            } else {
                rest
            }
        }
    }

    /// No child, at any depth, has a separator in its name.
    pub open spec fn wf(&self) -> bool
        decreases self.depth(),
        via Self::wf_decreases
    {
        forall|i: int|
            0 <= i < self.nodes().len() ==> {
                &&& !has_separator(#[trigger] self.nodes()[i].name())
                &&& self.nodes()[i].wf()
            }
    }

    #[via_fn]
    proof fn wf_decreases(&self) {
        assert forall|i: int| 0 <= i < self.nodes().len() implies (#[trigger] self.nodes()[i]).depth()
            < self.depth() by {
            self.lemma_child_depth(i);
        }
    }

    /// `node` is this node or one of its descendants.
    pub open spec fn contains(&self, node: HttpRequestHandler<F>) -> bool
        decreases self.depth(),
        via Self::contains_decreases
    {
        node == *self || exists|i: int|
            0 <= i < self.nodes().len() && (#[trigger] self.nodes()[i]).contains(node)
    }

    #[via_fn]
    proof fn contains_decreases(&self, node: HttpRequestHandler<F>) {
        assert forall|i: int| 0 <= i < self.nodes().len() implies (#[trigger] self.nodes()[i]).depth()
            < self.depth() by {
            self.lemma_child_depth(i);
        }
    }

    /// Every node of a list is less high than the list.
    proof fn lemma_depth_of_bounds(nodes: Seq<HttpRequestHandler<F>>)
        ensures
            forall|i: int| 0 <= i < nodes.len() ==> (#[trigger] nodes[i]).depth() < Self::depth_of(nodes),
        decreases nodes.len(),
    {
        if nodes.len() > 0 {
            Self::lemma_depth_of_bounds(nodes.drop_last());
            assert forall|i: int| 0 <= i < nodes.len() implies (#[trigger] nodes[i]).depth()
                < Self::depth_of(nodes) by {
                if i < nodes.len() - 1 {
                    assert(nodes.drop_last()[i] == nodes[i]);
                }
            }
        }
    }

    /// Every child is less high than its parent.
    pub proof fn lemma_child_depth(self, i: int)
        requires
            0 <= i < self.nodes().len(),
        ensures
            self.nodes()[i].depth() < self.depth(),
    {
        Self::lemma_depth_of_bounds(self.children@);
    }

    /// What a node contains, its parent contains.
    pub proof fn lemma_contains_child(self, i: int, node: HttpRequestHandler<F>)
        requires
            0 <= i < self.nodes().len(),
            self.nodes()[i].contains(node),
        ensures
            self.contains(node),
    {
    }

    /// The node's name.
    pub fn dir_name(&self) -> (name: &str)
        ensures
            name@ == self.name(),
    {
        self.dir_name.as_str()
    }

    /// Whether no child, at any depth, has a separator in its name.
    pub fn is_well_formed(&self) -> (well_formed: bool)
        ensures
            well_formed == self.wf(),
        decreases self.depth(),
    {
        let mut i: usize = 0;
        while i < self.children.len()
            invariant
                i <= self.children.len(),
                forall|j: int|
                    0 <= j < i ==> {
                        &&& !has_separator(#[trigger] self.nodes()[j].name())
                        &&& self.nodes()[j].wf()
                    },
            decreases self.children.len() - i,
        {
            let child = &self.children[i];
            proof {
                self.lemma_child_depth(i as int);
                assert(self.nodes()[i as int] == *child);
            }
            if contains_separator(child.dir_name()) || !child.is_well_formed() {
                assert(!self.wf()) by {
                    if self.wf() {
                        assert(!has_separator(self.nodes()[i as int].name()));
                        assert(self.nodes()[i as int].wf());
                    }
                }
                return false;
            }
            assert forall|j: int| 0 <= j < i + 1 implies {
                &&& !has_separator(#[trigger] self.nodes()[j].name())
                &&& self.nodes()[j].wf()
            } by {
                if j == i {
                    assert(self.nodes()[j] == *child);
                }
            }
            i += 1;
        }
        assert(self.nodes().len() == i);
        true
    }

    /// Whether the node's name is the root's name, `"/"`.
    pub fn is_root(&self) -> (root: bool)
        ensures
            root == (self.name() == seq![SEPARATOR]),
    {
        is_root_text(self.dir_name.as_str())
    }

    /// What `check_root` finds: the root's name is tested first.
    pub open spec fn check_root_spec(&self) -> Result<(), RouterError> {
        if self.name() != seq![SEPARATOR] {
            Err(RouterError::RootName)
        } else if !self.wf() {
            Err(RouterError::ChildName)
        } else {
            Ok(())
        }
    }

    /// Whether the tree can serve as the router of a server: its root is
    /// named `"/"`, and no node below has a separator in its name.
    pub fn check_root(&self) -> (checked: Result<(), RouterError>)
        ensures
            checked == self.check_root_spec(),
    {
        if !self.is_root() {
            Err(RouterError::RootName)
        } else if !self.is_well_formed() {
            Err(RouterError::ChildName)
        } else {
            Ok(())
        }
    }

    /// The response that reports a failure: the status that `error_status`
    /// gives for `status`, the plain text `"<code> <reason>"`, or the code
    /// alone where the status has no reason, and a connection that is to be
    /// closed. `reason` is the reason of the reported status.
    pub fn error_response(&self, status: u16, reason: Option<&str>) -> (response: HttpResponse)
        ensures
            response.status == error_status_spec(status),
            response.headers.deep_view() == seq![
                ("Content-Type"@, "text/plain; charset=utf-8"@),
                ("Connection"@, "close"@),
            ],
            response.body@ == vstd::utf8::encode_utf8(
                error_message_spec(error_status_spec(status), reason_spec(reason)),
            ),
    {
        let reported = error_status(status);
        let mut message = decimal(reported as u64);
        match reason {
            Some(reason) => {
                message.push(' ');
                message.append(reason);
            },
            None => {},
        }
        let mut headers: Vec<HttpHeader> = Vec::new();
        headers.push(HttpHeader::new("Content-Type", "text/plain; charset=utf-8"));
        headers.push(HttpHeader::new("Connection", "close"));
        assert(headers.deep_view() =~= seq![
            ("Content-Type"@, "text/plain; charset=utf-8"@),
            ("Connection"@, "close"@),
        ]);
        HttpResponse { status: reported, headers, body: message.as_str().as_bytes_vec() }
    }
}

impl<F: Clone> HttpRequestHandler<F> {
    /// A copy of the tree, with a clone of each handler.
    pub fn duplicate(&self) -> (copy: HttpRequestHandler<F>)
        ensures
            mirrors(copy, *self),
        decreases self.depth(),
    {
        let mut children: Vec<HttpRequestHandler<F>> = Vec::new();
        let mut i: usize = 0;
        while i < self.children.len()
            invariant
                i <= self.children.len(),
                children.len() == i,
                forall|j: int| 0 <= j < i ==> mirrors(children[j], #[trigger] self.nodes()[j]),
            decreases self.children.len() - i,
        {
            proof {
                self.lemma_child_depth(i as int);
            }
            let child = self.children[i].duplicate();
            children.push(child);
            i += 1;
        }
        HttpRequestHandler {
            dir_name: self.dir_name.clone(),
            function: self.function.clone(),
            children,
        }
    }
}

impl<F: Clone> Clone for HttpRequestHandler<F> {
    fn clone(&self) -> (copy: HttpRequestHandler<F>)
        ensures
            mirrors(copy, *self),
    {
        self.duplicate()
    }
}

impl<F: Fn(&mut World, &HttpRequest) -> Result<HttpResponse, u16>> HttpRequestHandler<F> {
    /// The handler of every node of the tree may be called on every world
    /// and request.
    pub open spec fn callable(&self) -> bool {
        forall|node: HttpRequestHandler<F>, world: &mut World, request: &HttpRequest|
            self.contains(node) ==> #[trigger] call_requires(node.handler(), (world, request))
    }

    /// A node with the given name and handler and no child.
    pub fn new(dir_name: &str, function: F) -> (node: HttpRequestHandler<F>)
        ensures
            node.name() == dir_name@,
            node.handler() == function,
            node.nodes().len() == 0,
            node.wf(),
            (forall|world: &mut World, request: &HttpRequest| #[trigger]
                call_requires(function, (world, request))) ==> node.callable(),
    {
        HttpRequestHandler { dir_name: dir_name.to_owned(), function, children: Vec::new() }
    }

    /// The node with `handler` added as its last child.
    pub fn add_child(self, handler: HttpRequestHandler<F>) -> (node: HttpRequestHandler<F>)
        requires
            !has_separator(handler.name()),
        ensures
            node.name() == self.name(),
            node.handler() == self.handler(),
            node.nodes() == self.nodes().push(handler),
            self.wf() && handler.wf() ==> node.wf(),
            self.callable() && handler.callable() ==> node.callable(),
    {
        let mut node = self;
        node.children.push(handler);
        proof {
            if self.wf() && handler.wf() {
                assert forall|i: int| 0 <= i < node.nodes().len() implies {
                    &&& !has_separator(#[trigger] node.nodes()[i].name())
                    &&& node.nodes()[i].wf()
                } by {
                    if i < self.nodes().len() {
                        assert(node.nodes()[i] == self.nodes()[i]);
                        assert(!has_separator(self.nodes()[i].name()));
                        assert(self.nodes()[i].wf());
                    } else {
                        assert(node.nodes()[i] == handler);
                    }
                }
            }
            if self.callable() && handler.callable() {
                assert forall|inner: HttpRequestHandler<F>, world: &mut World, request: &HttpRequest|
                    node.contains(inner) implies #[trigger] call_requires(
                    inner.handler(),
                    (world, request),
                ) by {
                    if inner == node {
                        assert(self.contains(self));
                        assert(call_requires(self.handler(), (world, request)));
                    } else {
                        let i = choose|i: int|
                            0 <= i < node.nodes().len() && (#[trigger] node.nodes()[i]).contains(
                                inner,
                            );
                        if i < self.nodes().len() {
                            assert(node.nodes()[i] == self.nodes()[i]);
                            self.lemma_contains_child(i, inner);
                        } else {
                            assert(node.nodes()[i] == handler);
                        }
                    }
                }
            }
        }
        node
    }

    /// The node with `handler` added as its last child, or the refusal of a
    /// child whose name holds a separator.
    pub fn try_add_child(self, handler: HttpRequestHandler<F>) -> (added: Result<
        HttpRequestHandler<F>,
        RouterError,
    >)
        ensures
            has_separator(handler.name()) ==> added == Err::<HttpRequestHandler<F>, RouterError>(
                RouterError::ChildName,
            ),
            !has_separator(handler.name()) ==> (added matches Ok(node) && {
                &&& node.name() == self.name()
                &&& node.handler() == self.handler()
                &&& node.nodes() == self.nodes().push(handler)
                &&& self.wf() && handler.wf() ==> node.wf()
                &&& self.callable() && handler.callable() ==> node.callable()
            }),
    {
        if contains_separator(handler.dir_name()) {
            Err(RouterError::ChildName)
        } else {
            Ok(self.add_child(handler))
        }
    }

    /// Dispatches `request`, starting at this node with the current path that
    /// `path` stands for.
    ///
    /// Where no node answers, the result is `Err(NOT_FOUND)` and the world is
    /// left as it is. Otherwise the result and the world are what one call of
    /// the answering node's handler, on the world as it was and the request,
    /// returned and left.
    pub fn handle(&self, world: &mut World, path: &str, request: &HttpRequest) -> (result: Result<
        HttpResponse,
        u16,
    >)
        requires
            self.callable(),
        ensures
            route_spec(*self, parse_spec(path@), parse_spec(request.path@)) is None ==> {
                &&& result == Err::<HttpResponse, u16>(NOT_FOUND)
                &&& *final(world) == *old(world)
            },
            route_spec(*self, parse_spec(path@), parse_spec(request.path@)) matches Some(node)
                ==> exists|w: &mut World|
                {
                    &&& #[trigger] call_ensures(node.handler(), (w, request), result)
                    &&& *w == *old(world)
                    &&& *final(w) == *final(world)
                },
    {
        let current = HttpPath::parse(path);
        let request_path = HttpPath::parse(request.path.as_str());
        self.dispatch(world, &current, &request_path, request)
    }

    /// Dispatches `request`, whose path is `request_path`, starting at this
    /// node with the current path `current`.
    pub fn dispatch(
        &self,
        world: &mut World,
        current: &HttpPath,
        request_path: &HttpPath,
        request: &HttpRequest,
    ) -> (result: Result<HttpResponse, u16>)
        requires
            self.callable(),
        ensures
            route_spec(*self, current@, request_path@) is None ==> {
                &&& result == Err::<HttpResponse, u16>(NOT_FOUND)
                &&& *final(world) == *old(world)
            },
            route_spec(*self, current@, request_path@) matches Some(node) ==> exists|
                w: &mut World,
            |
                {
                    &&& #[trigger] call_ensures(node.handler(), (w, request), result)
                    &&& *w == *old(world)
                    &&& *final(w) == *final(world)
                },
        decreases self.depth(),
    {
        let mut i: usize = 0;
        while i < self.children.len()
            invariant
                i <= self.children.len(),
                self.callable(),
                *world == *old(world),
                forall|j: int|
                    0 <= j < i ==> !starts_with_spec(
                        request_path@,
                        push_spec(current@, #[trigger] self.nodes()[j].name()),
                    ),
            decreases self.children.len() - i,
        {
            let child = &self.children[i];
            let mut candidate = current.clone();
            candidate.push(child.dir_name());
            if request_path.starts_with(&candidate) {
                proof {
                    assert(self.nodes()[i as int] == *child);
                    assert(selects(self.nodes(), current@, request_path@, i as int));
                    lemma_first_match_wins(*self, current@, request_path@, i as int);
                    self.lemma_child_depth(i as int);
                    assert forall|inner: HttpRequestHandler<F>, w: &mut World, q: &HttpRequest|
                        child.contains(inner) implies #[trigger] call_requires(
                        inner.handler(),
                        (w, q),
                    ) by {
                        self.lemma_contains_child(i as int, inner);
                    }
                }
                return child.dispatch(world, &candidate, request_path, request);
            }
            i += 1;
        }
        proof {
            lemma_no_match(*self, current@, request_path@);
        }
        if !(current == request_path) {
            return Err(NOT_FOUND);
        }
        let function = &self.function;
        assert(self.contains(*self));
        assert(*function == self.handler());
        assert(forall|w: &mut World, q: &HttpRequest| #[trigger] call_requires(*function, (w, q)));
        let result = function(world, request);
        assert(route_spec(*self, current@, request_path@)->0 == *self);
        assert(exists|w: &mut World| #[trigger]
            call_ensures(self.handler(), (w, request), result) && *w == *old(world) && *final(w)
                == *world);
        result
    }
}

/// First match wins: where the child at `index` is the first whose path is a
/// prefix of the request's path, the request goes where that child sends it,
/// with the child's path as the current path.
pub proof fn lemma_first_match_wins<F>(
    node: HttpRequestHandler<F>,
    current: Seq<Seq<char>>,
    request: Seq<Seq<char>>,
    index: int,
)
    requires
        selects(node.nodes(), current, request, index),
    ensures
        route_spec(node, current, request) == route_spec(
            node.nodes()[index],
            push_spec(current, node.nodes()[index].name()),
            request,
        ),
{
    let chosen = choose|i: int| selects(node.nodes(), current, request, i);
    assert(chosen == index) by {
        if chosen < index {
            assert(!starts_with_spec(request, push_spec(current, node.nodes()[chosen].name())));
        } else if index < chosen {
            assert(!starts_with_spec(request, push_spec(current, node.nodes()[index].name())));
        }
    }
}

/// Where no child's path is a prefix of the request's path, the node itself
/// answers if the current path is the request's path, and nothing does
/// otherwise.
pub proof fn lemma_no_match<F>(
    node: HttpRequestHandler<F>,
    current: Seq<Seq<char>>,
    request: Seq<Seq<char>>,
)
    requires
        forall|j: int|
            0 <= j < node.nodes().len() ==> !starts_with_spec(
                request,
                push_spec(current, #[trigger] node.nodes()[j].name()),
            ),
    ensures
        route_spec(node, current, request) == if current == request {
            Some(node)
        } else {
            None
        },
{
    assert(!exists|i: int| selects(node.nodes(), current, request, i));
}

/// The node that answers is a node of the tree, and the request's path
/// starts with the path at which the dispatch started.
pub proof fn lemma_route_within<F>(
    node: HttpRequestHandler<F>,
    current: Seq<Seq<char>>,
    request: Seq<Seq<char>>,
)
    requires
        route_spec(node, current, request) is Some,
    ensures
        node.contains(route_spec(node, current, request)->0),
        starts_with_spec(request, current),
    decreases node.depth(),
{
    if exists|i: int| selects(node.nodes(), current, request, i) {
        let i = choose|i: int| selects(node.nodes(), current, request, i);
        let child = node.nodes()[i];
        let below = push_spec(current, child.name());
        node.lemma_child_depth(i);
        lemma_route_within(child, below, request);
        node.lemma_contains_child(i, route_spec(child, below, request)->0);
        assert(starts_with_spec(request, current)) by {
            assert(starts_with_spec(request, below));
            assert forall|k: int| 0 <= k < current.len() implies request[k] == current[k] by {
                assert(below[k] == current[k]);
            }
        }
    }
}

} // verus!
