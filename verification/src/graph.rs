//! The one-hop graph around a user, as nodes and links for the front end.
use vstd::prelude::*;
use vstd::string::StringExecFns;
use crate::api::{Reply, Status, error_with_detail, is_error};
use crate::db::DbQuery;

verus! {

/// A node of the graph view.
#[derive(Debug, Clone, PartialEq, Eq)]
pub struct NeoNode {
    pub id: String,
    pub label: String,
    pub name: String,
}

/// A directed, labelled link between two nodes.
#[derive(Debug, Clone, PartialEq, Eq)]
pub struct NeoLink {
    pub source: String,
    pub target: String,
    pub label: String,
}

/// The graph view: its nodes and links.
#[derive(Debug, PartialEq, Eq)]
pub struct GraphDataResponse {
    pub nodes: Vec<NeoNode>,
    pub links: Vec<NeoLink>,
}

/// One relationship around the user, as the database returns it: both
/// end points (id, label, user name, invite code) and the relationship
/// type, each possibly absent.
#[derive(Debug, PartialEq, Eq)]
pub struct GraphRow {
    pub source_id: Option<String>,
    pub source_label: Option<String>,
    pub source_name: Option<String>,
    pub source_code: Option<String>,
    pub target_id: Option<String>,
    pub target_label: Option<String>,
    pub target_name: Option<String>,
    pub target_code: Option<String>,
    pub rel_type: Option<String>,
}

/// A node as text: (id, label, name).
pub type NodeView = (Seq<char>, Seq<char>, Seq<char>);

/// A link as text: (source, target, label).
pub type LinkView = (Seq<char>, Seq<char>, Seq<char>);

impl View for NeoNode {
    type V = NodeView;

    open spec fn view(&self) -> NodeView {
        (self.id@, self.label@, self.name@)
    }
}

impl View for NeoLink {
    type V = LinkView;

    open spec fn view(&self) -> LinkView {
        (self.source@, self.target@, self.label@)
    }
}

/// The name shown for an end point: its user name, else its invite code,
/// else `System`.
pub open spec fn display_name(name: Option<String>, code: Option<String>) -> Seq<char> {
    match name {
        Some(n) => n@,
        None => match code {
            Some(c) => c@,
            None => "System"@,
        },
    }
}

/// The source end point of a row as a node, when it has an id and a label.
pub open spec fn source_node(r: GraphRow) -> Option<NodeView> {
    match (r.source_id, r.source_label) {
        (Some(i), Some(l)) => Some((i@, l@, display_name(r.source_name, r.source_code))),
        _ => None,
    }
}

/// The target end point of a row as a node, when it has an id and a label.
pub open spec fn target_node(r: GraphRow) -> Option<NodeView> {
    match (r.target_id, r.target_label) {
        (Some(i), Some(l)) => Some((i@, l@, display_name(r.target_name, r.target_code))),
        _ => None,
    }
}

/// Adds a node under its id unless a node with that id is already there.
pub open spec fn add_first(m: Map<Seq<char>, NodeView>, n: Option<NodeView>) -> Map<Seq<char>, NodeView> {
    match n {
        Some(v) => if m.contains_key(v.0) {
            m
        } else {
            m.insert(v.0, v)
        },
        None => m,
    }
}

/// The nodes after reading `rows` in order, starting from `m`: for each
/// row its source, then its target, the first node seen under an id wins.
pub open spec fn nodes_after(m: Map<Seq<char>, NodeView>, rows: Seq<GraphRow>) -> Map<Seq<char>, NodeView>
    decreases rows.len(),
{
    if rows.len() == 0 {
        m
    } else {
        let prev = nodes_after(m, rows.drop_last());
        add_first(add_first(prev, source_node(rows.last())), target_node(rows.last()))
    }
}

/// The name of the current user: the one the database gave, else `Me`.
pub open spec fn my_display_name(me: Option<String>) -> Seq<char> {
    match me {
        Some(n) => n@,
        None => "Me"@,
    }
}

/// The node of the current user.
pub open spec fn user_node(user_id: Seq<char>, me: Option<String>) -> NodeView {
    (user_id, "User"@, my_display_name(me))
}

/// The nodes of the graph view, by id: the current user first, then the
/// end points of the rows.
pub open spec fn graph_node_map(user_id: Seq<char>, me: Option<String>, rows: Seq<GraphRow>) -> Map<Seq<char>, NodeView> {
    nodes_after(Map::empty().insert(user_id, user_node(user_id, me)), rows)
}

/// The link of a row, when it has a source id, a target id and a type.
pub open spec fn row_link(r: GraphRow) -> Option<LinkView> {
    match (r.source_id, r.target_id, r.rel_type) {
        (Some(s), Some(t), Some(k)) => Some((s@, t@, k@)),
        _ => None,
    }
}

/// The links of the graph view: one per row that has one, in row order.
pub open spec fn graph_links(rows: Seq<GraphRow>) -> Seq<LinkView>
    decreases rows.len(),
{
    if rows.len() == 0 {
        Seq::empty()
    } else {
        let prev = graph_links(rows.drop_last());
        match row_link(rows.last()) {
            Some(l) => prev.push(l),
            None => prev,
        }
    }
}

/// A row has a link exactly when it has a source id, a target id and a
/// relationship type, and the link joins those ids under that type.
pub proof fn law_row_link(r: GraphRow)
    ensures
        row_link(r) is Some <==> (r.source_id is Some && r.target_id is Some && r.rel_type is Some),
        row_link(r) is Some ==> row_link(r)->0 == (r.source_id->0@, r.target_id->0@, r.rel_type->0@),
{
}

/// An end point shows as a node exactly when it has an id and a label; the
/// node carries that id, that label and the end point's shown name.
pub proof fn law_end_point_nodes(r: GraphRow)
    ensures
        source_node(r) is Some <==> (r.source_id is Some && r.source_label is Some),
        source_node(r) is Some ==> source_node(r)->0 == (
            r.source_id->0@,
            r.source_label->0@,
            display_name(r.source_name, r.source_code),
        ),
        target_node(r) is Some <==> (r.target_id is Some && r.target_label is Some),
        target_node(r) is Some ==> target_node(r)->0 == (
            r.target_id->0@,
            r.target_label->0@,
            display_name(r.target_name, r.target_code),
        ),
{
}

/// The current user's node is labelled `User` and named as the database
/// gave the name, or `Me`.
pub proof fn law_user_node(user_id: Seq<char>, me: Option<String>)
    ensures
        user_node(user_id, me).0 == user_id,
        user_node(user_id, me).1 == "User"@,
        me matches Some(n) ==> user_node(user_id, me).2 == n@,
        me is None ==> user_node(user_id, me).2 == "Me"@,
{
}

/// The first node seen under an id wins: adding a node whose id is already
/// there changes nothing; adding one under a new id files it there and
/// keeps every other node.
pub proof fn law_add_first(m: Map<Seq<char>, NodeView>, v: NodeView)
    ensures
        m.contains_key(v.0) ==> add_first(m, Some(v)) == m,
        !m.contains_key(v.0) ==> add_first(m, Some(v)).contains_key(v.0) && add_first(m, Some(v))[v.0] == v,
        forall|k: Seq<char>| #[trigger] m.contains_key(k) ==> add_first(m, Some(v)).contains_key(k) && add_first(
            m,
            Some(v),
        )[k] == m[k],
        add_first(m, None) == m,
{
}

/// The text of each link is its source, target and label, in list order.
pub proof fn law_link_views(links: Seq<NeoLink>)
    ensures
        link_views(links).len() == links.len(),
        forall|i: int|
            0 <= i < links.len() ==> #[trigger] link_views(links)[i] == (
                links[i].source@,
                links[i].target@,
                links[i].label@,
            ),
{
}

/// The shown name of an end point: its user name when it has one, else its
/// invite code when it has one, else `System`.
pub proof fn law_display_name(name: Option<String>, code: Option<String>)
    ensures
        name matches Some(n) ==> display_name(name, code) == n@,
        name is None ==> (code matches Some(c) ==> display_name(name, code) == c@),
        name is None && code is None ==> display_name(name, code) == "System"@,
{
}

/// One link per row that has one, in row order, none merged or dropped:
/// the links are the rows' links, kept by `filter_map`.
pub proof fn law_links_one_per_row(rows: Seq<GraphRow>)
    ensures
        graph_links(rows) == rows.filter_map(|r: GraphRow| row_link(r)),
    decreases rows.len(),
{
    if rows.len() > 0 {
        law_links_one_per_row(rows.drop_last());
        let prev = rows.drop_last().filter_map(|r: GraphRow| row_link(r));
        match row_link(rows.last()) {
            Some(l) => {
                assert(prev.push(l) =~= prev + seq![l]);
            },
            None => {},
        }
    }
}

/// Every end point of a row that has an id and a label shows as a node
/// under that id.
pub proof fn law_graph_nodes_cover_rows(user_id: Seq<char>, me: Option<String>, rows: Seq<GraphRow>)
    ensures
        forall|i: int|
            0 <= i < rows.len() && (#[trigger] rows[i]).source_id is Some && rows[i].source_label is Some
                ==> graph_node_map(user_id, me, rows).contains_key(rows[i].source_id->0@),
        forall|i: int|
            0 <= i < rows.len() && (#[trigger] rows[i]).target_id is Some && rows[i].target_label is Some
                ==> graph_node_map(user_id, me, rows).contains_key(rows[i].target_id->0@),
{
    let init = Map::<Seq<char>, NodeView>::empty().insert(user_id, user_node(user_id, me));
    lemma_nodes_cover(init, rows);
}

proof fn lemma_nodes_cover(m: Map<Seq<char>, NodeView>, rows: Seq<GraphRow>)
    ensures
        forall|i: int|
            0 <= i < rows.len() && (#[trigger] rows[i]).source_id is Some && rows[i].source_label is Some
                ==> nodes_after(m, rows).contains_key(rows[i].source_id->0@),
        forall|i: int|
            0 <= i < rows.len() && (#[trigger] rows[i]).target_id is Some && rows[i].target_label is Some
                ==> nodes_after(m, rows).contains_key(rows[i].target_id->0@),
    decreases rows.len(),
{
    if rows.len() > 0 {
        let prev_rows = rows.drop_last();
        lemma_nodes_cover(m, prev_rows);
        let prev = nodes_after(m, prev_rows);
        let mid = add_first(prev, source_node(rows.last()));
        let fin = add_first(mid, target_node(rows.last()));
        assert(nodes_after(m, rows) == fin);
        assert forall|k: Seq<char>| prev.contains_key(k) implies fin.contains_key(k) by {}
        assert forall|i: int|
            0 <= i < rows.len() && (#[trigger] rows[i]).source_id is Some && rows[i].source_label is Some
                implies fin.contains_key(rows[i].source_id->0@) by {
            if i < rows.len() - 1 {
                assert(prev_rows[i] == rows[i]);
            }
        }
        assert forall|i: int|
            0 <= i < rows.len() && (#[trigger] rows[i]).target_id is Some && rows[i].target_label is Some
                implies fin.contains_key(rows[i].target_id->0@) by {
            if i < rows.len() - 1 {
                assert(prev_rows[i] == rows[i]);
            }
        }
    }
}

/// A list of nodes read as a map from id to node.
pub open spec fn node_map(nodes: Seq<NeoNode>) -> Map<Seq<char>, NodeView>
    decreases nodes.len(),
{
    if nodes.len() == 0 {
        Map::empty()
    } else {
        node_map(nodes.drop_last()).insert(nodes.last().id@, nodes.last()@)
    }
}

/// No two nodes of the list share an id.
pub open spec fn distinct_ids(nodes: Seq<NeoNode>) -> bool {
    forall|i: int, j: int| 0 <= i < j < nodes.len() ==> nodes[i].id@ != nodes[j].id@
}

/// The links of a list as text.
pub open spec fn link_views(links: Seq<NeoLink>) -> Seq<LinkView> {
    links.map_values(|l: NeoLink| l@)
}

/// The ids of `node_map(nodes)` are exactly the ids in the list, and each
/// maps to the node of the list that carries it.
pub proof fn lemma_node_map(nodes: Seq<NeoNode>)
    requires
        distinct_ids(nodes),
    ensures
        forall|k: Seq<char>|
            node_map(nodes).contains_key(k) <==> exists|j: int|
                0 <= j < nodes.len() && #[trigger] nodes[j].id@ == k,
        forall|j: int| 0 <= j < nodes.len() ==> node_map(nodes)[#[trigger] nodes[j].id@] == nodes[j]@,
    decreases nodes.len(),
{
    if nodes.len() > 0 {
        let prev = nodes.drop_last();
        assert(distinct_ids(prev));
        lemma_node_map(prev);
        assert(node_map(nodes) == node_map(prev).insert(nodes.last().id@, nodes.last()@));
        assert forall|k: Seq<char>|
            node_map(nodes).contains_key(k) implies exists|j: int|
                0 <= j < nodes.len() && #[trigger] nodes[j].id@ == k by {
            if k == nodes.last().id@ {
                assert(nodes[nodes.len() - 1].id@ == k);
            } else {
                assert(node_map(prev).contains_key(k));
                let j = choose|j: int| 0 <= j < prev.len() && #[trigger] prev[j].id@ == k;
                assert(prev[j] == nodes[j]);
                assert(nodes[j].id@ == k);
            }
        }
        assert forall|k: Seq<char>|
            (exists|j: int| 0 <= j < nodes.len() && #[trigger] nodes[j].id@ == k) implies node_map(
                nodes,
            ).contains_key(k) by {
            let j = choose|j: int| 0 <= j < nodes.len() && #[trigger] nodes[j].id@ == k;
            if j < nodes.len() - 1 {
                assert(prev[j] == nodes[j]);
            }
        }
        assert forall|j: int| 0 <= j < nodes.len() implies node_map(nodes)[#[trigger] nodes[j].id@]
            == nodes[j]@ by {
            if j < nodes.len() - 1 {
                assert(nodes[j] == prev[j]);
            }
        }
    }
}

/// Reading rows never changes a node already present, files each new
/// node under its own id, and takes every new node from a row.
pub proof fn lemma_nodes_after(m: Map<Seq<char>, NodeView>, rows: Seq<GraphRow>)
    ensures
        forall|k: Seq<char>|
            #[trigger] m.contains_key(k) ==> nodes_after(m, rows).contains_key(k) && nodes_after(
                m,
                rows,
            )[k] == m[k],
        (forall|k: Seq<char>| #[trigger] m.contains_key(k) ==> m[k].0 == k) ==> (forall|k: Seq<char>|
            #[trigger] nodes_after(m, rows).contains_key(k) ==> nodes_after(m, rows)[k].0 == k),
        forall|k: Seq<char>|
            #[trigger] nodes_after(m, rows).contains_key(k) ==> m.contains_key(k) || exists|i: int|
                0 <= i < rows.len() && (source_node(#[trigger] rows[i]) == Some(nodes_after(m, rows)[k])
                    || target_node(rows[i]) == Some(nodes_after(m, rows)[k])),
    decreases rows.len(),
{
    if rows.len() > 0 {
        let prev_rows = rows.drop_last();
        lemma_nodes_after(m, prev_rows);
        let prev = nodes_after(m, prev_rows);
        let mid = add_first(prev, source_node(rows.last()));
        let fin = add_first(mid, target_node(rows.last()));
        assert(nodes_after(m, rows) == fin);
        assert forall|k: Seq<char>| #[trigger] fin.contains_key(k) implies m.contains_key(k) || exists|i: int|
            0 <= i < rows.len() && (source_node(#[trigger] rows[i]) == Some(fin[k]) || target_node(rows[i])
                == Some(fin[k])) by {
            if prev.contains_key(k) {
                assert(fin[k] == prev[k]);
                if !m.contains_key(k) {
                    let i = choose|i: int|
                        0 <= i < prev_rows.len() && (source_node(#[trigger] prev_rows[i]) == Some(prev[k])
                            || target_node(prev_rows[i]) == Some(prev[k]));
                    assert(prev_rows[i] == rows[i]);
                }
            } else if mid.contains_key(k) {
                assert(source_node(rows[rows.len() - 1]) == Some(fin[k]));
            } else {
                assert(target_node(rows[rows.len() - 1]) == Some(fin[k]));
            }
        }
    }
}

/// The graph view always holds the current user's node, under the user's
/// id, labelled `User`; every node is filed under its own id; and every
/// other node is an end point of one of the rows.
pub proof fn law_graph_view(user_id: Seq<char>, me: Option<String>, rows: Seq<GraphRow>)
    ensures
        graph_node_map(user_id, me, rows).contains_key(user_id),
        graph_node_map(user_id, me, rows)[user_id] == user_node(user_id, me),
        forall|k: Seq<char>| #[trigger]
            graph_node_map(user_id, me, rows).contains_key(k) ==> graph_node_map(user_id, me, rows)[k].0
                == k,
        forall|k: Seq<char>| #[trigger]
            graph_node_map(user_id, me, rows).contains_key(k) && k != user_id ==> exists|i: int|
                0 <= i < rows.len() && (source_node(#[trigger] rows[i]) == Some(
                    graph_node_map(user_id, me, rows)[k],
                ) || target_node(rows[i]) == Some(graph_node_map(user_id, me, rows)[k])),
{
    let init = Map::<Seq<char>, NodeView>::empty().insert(user_id, user_node(user_id, me));
    assert(init.contains_key(user_id));
    lemma_nodes_after(init, rows);
}

/// Whether some node of the list has this id.
fn has_node(nodes: &Vec<NeoNode>, id: &String) -> (found: bool)
    ensures
        found <==> exists|j: int| 0 <= j < nodes@.len() && #[trigger] nodes@[j].id@ == id@,
{
    let mut j: usize = 0;
    while j < nodes.len()
        invariant
            j <= nodes@.len(),
            forall|k: int| 0 <= k < j ==> #[trigger] nodes@[k].id@ != id@,
        decreases nodes@.len() - j,
    {
        if nodes[j].id == *id {
            return true;
        }
        j = j + 1;
    }
    false
}

/// The name shown for an end point (see `display_name`).
fn pick_name(name: &Option<String>, code: &Option<String>) -> (r: String)
    ensures
        r@ == display_name(*name, *code),
{
    match name {
        Some(n) => n.clone(),
        None => match code {
            Some(c) => c.clone(),
            None => String::from_str("System"),
        },
    }
}

/// Builds the node of an end point that has an id and a label.
fn end_point_node(
    id: &Option<String>,
    label: &Option<String>,
    name: &Option<String>,
    code: &Option<String>,
) -> (r: Option<NeoNode>)
    ensures
        match (*id, *label) {
            (Some(i), Some(l)) => r matches Some(n) && n@ == (i@, l@, display_name(*name, *code)),
            _ => r is None,
        },
{
    match (id, label) {
        (Some(i), Some(l)) => Some(NeoNode { id: i.clone(), label: l.clone(), name: pick_name(name, code) }),
        _ => None,
    }
}

/// Adds a node unless one with its id is already in the list.
fn add_node(nodes: &mut Vec<NeoNode>, node: Option<NeoNode>)
    requires
        distinct_ids(old(nodes)@),
    ensures
        distinct_ids(final(nodes)@),
        node_map(final(nodes)@) == add_first(
            node_map(old(nodes)@),
            match node {
                Some(n) => Some(n@),
                None => None,
            },
        ),
{
    proof {
        lemma_node_map(nodes@);
    }
    match node {
        Some(n) => {
            if !has_node(nodes, &n.id) {
                let ghost before = nodes@;
                nodes.push(n);
                assert(nodes@.drop_last() =~= before);
            }
        },
        None => {},
    }
}

/// The state of the graph handler once the neighbourhood query is sent.
#[derive(Debug, PartialEq, Eq)]
pub struct GraphLoad {
    pub user_id: String,
}

/// What the graph handler does after the neighbourhood query.
#[derive(Debug, PartialEq, Eq)]
pub enum GraphNext {
    /// Ask for the name of the user, then read the neighbourhood rows.
    LoadName(GraphLoad, DbQuery),
    /// Answer now.
    Reply(Reply<GraphDataResponse>),
}

/// Starts the graph handler: asks for the relationships around the user.
pub fn graph_begin(user_id: String) -> (r: (GraphLoad, DbQuery))
    ensures
        r.0.user_id == user_id,
        r.1 == (DbQuery::UserNeighborhood { user_id }),
{
    let q = DbQuery::UserNeighborhood { user_id: user_id.clone() };
    (GraphLoad { user_id }, q)
}

/// After the neighbourhood query: a failure is answered with status 500;
/// otherwise the name of the user is asked for.
pub fn graph_on_neighborhood(st: GraphLoad, executed: Result<(), String>) -> (r: GraphNext)
    ensures
        match executed {
            Err(detail) => r matches GraphNext::Reply(Err(e)) && is_error(
                e,
                Status::InternalServerError,
                "Không thể tải đồ thị: "@ + detail@,
            ),
            Ok(()) => r == GraphNext::LoadName(
                st,
                DbQuery::UserName { user_id: st.user_id },
            ),
        },
{
    match executed {
        Err(detail) => GraphNext::Reply(
            Err(error_with_detail(Status::InternalServerError, "Không thể tải đồ thị: ", &detail)),
        ),
        Ok(()) => {
            let q = DbQuery::UserName { user_id: st.user_id.clone() };
            GraphNext::LoadName(st, q)
        },
    }
}

/// Builds the graph view from the user's name (if the database gave one)
/// and the neighbourhood rows: the user's node, every end point that has
/// an id and a label (the first node seen under an id wins), and a link
/// for every row with both ids and a type.
pub fn graph_on_rows(st: &GraphLoad, me: Option<String>, rows: Vec<GraphRow>) -> (r: GraphDataResponse)
    ensures
        distinct_ids(r.nodes@),
        node_map(r.nodes@) == graph_node_map(st.user_id@, me, rows@),
        link_views(r.links@) == graph_links(rows@),
        link_views(r.links@) == rows@.filter_map(|row: GraphRow| row_link(row)),
{
    proof {
        law_links_one_per_row(rows@);
    }
    let name = match me {
        Some(n) => n,
        None => String::from_str("Me"),
    };
    let mut nodes: Vec<NeoNode> = Vec::new();
    let first = NeoNode { id: st.user_id.clone(), label: String::from_str("User"), name };
    nodes.push(first);
    let mut links: Vec<NeoLink> = Vec::new();
    let ghost init = Map::<Seq<char>, NodeView>::empty().insert(st.user_id@, user_node(st.user_id@, me));
    assert(nodes@.drop_last() =~= Seq::<NeoNode>::empty());
    assert(node_map(nodes@.drop_last()) == Map::<Seq<char>, NodeView>::empty());
    assert(nodes@.last()@ == user_node(st.user_id@, me));
    assert(node_map(nodes@) =~= init);
    let mut i: usize = 0;
    while i < rows.len()
        invariant
            i <= rows@.len(),
            distinct_ids(nodes@),
            node_map(nodes@) == nodes_after(init, rows@.take(i as int)),
            link_views(links@) == graph_links(rows@.take(i as int)),
        decreases rows@.len() - i,
    {
        let row = &rows[i];
        let src = end_point_node(&row.source_id, &row.source_label, &row.source_name, &row.source_code);
        add_node(&mut nodes, src);
        let tgt = end_point_node(&row.target_id, &row.target_label, &row.target_name, &row.target_code);
        add_node(&mut nodes, tgt);
        let ghost links_before = links@;
        match (&row.source_id, &row.target_id, &row.rel_type) {
            (Some(s), Some(t), Some(k)) => {
                links.push(NeoLink { source: s.clone(), target: t.clone(), label: k.clone() });
            },
            _ => {},
        }
        proof {
            let taken = rows@.take(i + 1);
            assert(taken.drop_last() =~= rows@.take(i as int));
            assert(taken.last() == rows@[i as int]);
            assert(link_views(links@) =~= graph_links(taken));
        }
        i = i + 1;
    }
    assert(rows@.take(rows@.len() as int) =~= rows@);
    GraphDataResponse { nodes, links }
}

} // verus!
