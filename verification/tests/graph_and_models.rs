use backend::api::{GenerateInvitePayload, InviteCodeInfo, Status};
use backend::db::{DbQuery, Lookup};
use backend::graph::{graph_begin, graph_on_neighborhood, graph_on_rows, GraphLoad, GraphNext, GraphRow, NeoLink, NeoNode};
use backend::invite::{generate_invite_begin, generate_invite_on_result, generate_invite_query, invite_code_from_uuid};
use backend::models::{
    BecomesGenesisEdge, ConsensusNode, Edge, EntityType, GraphEntity, SystemNode, UserNode,
    UserRegistrationConsensusNode,
};

fn s(x: &str) -> String {
    x.to_string()
}

fn o(x: &str) -> Option<String> {
    Some(s(x))
}

#[test]
fn invite_code_is_upper_case_uuid() {
    let code = invite_code_from_uuid("67e55044-10b1-426f-9247-bb680e5fe0c8");
    assert_eq!(code, "INA-67E55044-10B1-426F-9247-BB680E5FE0C8");
    let code = invite_code_from_uuid("67e55044-10b1-426f-9247-bb680e5fe0c8-extra");
    assert_eq!(code, "INA-67E55044-10B1-426F-9247-BB680E5FE0C8");
    let code = invite_code_from_uuid("67e55044-10b1-426f-9247-bb680e5fe0c8é");
    assert_eq!(code, "INA-67E55044-10B1-426F-9247-BB680E5FE0C8");
}

#[test]
fn invite_query_for_uuid() {
    let q = generate_invite_query(GenerateInvitePayload { user_id: s("u-1") }, "abcdef01-2345-4789-a0bc-def012345678");
    assert_eq!(
        q,
        DbQuery::CreateInvite { user_id: s("u-1"), code: s("INA-ABCDEF01-2345-4789-A0BC-DEF012345678") }
    );
}

#[test]
fn generated_invite_codes_have_the_shape() {
    let a = generate_invite_begin(GenerateInvitePayload { user_id: s("u-1") }, [0xff; 16]);
    let b = generate_invite_begin(GenerateInvitePayload { user_id: s("u-1") }, [0x3c; 16]);
    for q in [&a, &b] {
        match q {
            DbQuery::CreateInvite { user_id, code } => {
                assert_eq!(user_id, "u-1");
                assert_eq!(code.len(), 40);
                assert!(code.starts_with("INA-"));
                assert_eq!(code.as_bytes()[18], b'4');
                assert!(b"89AB".contains(&code.as_bytes()[23]));
                for (i, c) in code.chars().enumerate().skip(4) {
                    if [12, 17, 22, 27].contains(&i) {
                        assert_eq!(c, '-');
                    } else {
                        assert!(c.is_ascii_digit() || ('A'..='F').contains(&c));
                    }
                }
            }
            other => panic!("unexpected {:?}", other),
        }
    }
    assert_ne!(a, b);
    assert_eq!(
        a,
        DbQuery::CreateInvite { user_id: s("u-1"), code: s("INA-FFFFFFFF-FFFF-4FFF-BFFF-FFFFFFFFFFFF") }
    );
}

#[test]
fn uuid_text_from_bytes() {
    let bytes = [0x67, 0xe5, 0x50, 0x44, 0x10, 0xb1, 0x42, 0x6f, 0x92, 0x47, 0xbb, 0x68, 0x0e, 0x5f, 0xe0, 0xc8];
    let q = generate_invite_begin(GenerateInvitePayload { user_id: s("u-2") }, bytes);
    assert_eq!(
        q,
        DbQuery::CreateInvite { user_id: s("u-2"), code: s("INA-67E55044-10B1-426F-9247-BB680E5FE0C8") }
    );
}

#[test]
fn invite_generation_replies() {
    let info = generate_invite_on_result(Lookup::Found(InviteCodeInfo { code: s("INA-X"), used: false })).unwrap();
    assert_eq!(info, InviteCodeInfo { code: s("INA-X"), used: false });
    let e = generate_invite_on_result(Lookup::Missing).unwrap_err();
    assert_eq!(e.status, Status::BadRequest);
    assert_eq!(e.body.message, "User không tồn tại.");
    let e = generate_invite_on_result(Lookup::Failed(s("x"))).unwrap_err();
    assert_eq!(e.status, Status::InternalServerError);
    assert_eq!(e.body.message, "Không thể tạo mã mời: x");
}

#[test]
fn graph_begin_and_failure() {
    let (st, q) = graph_begin(s("u-1"));
    assert_eq!(st, GraphLoad { user_id: s("u-1") });
    assert_eq!(q, DbQuery::UserNeighborhood { user_id: s("u-1") });
    match graph_on_neighborhood(GraphLoad { user_id: s("u-1") }, Err(s("refused"))) {
        GraphNext::Reply(Err(e)) => {
            assert_eq!(e.status.code(), 500);
            assert_eq!(e.body.message, "Không thể tải đồ thị: refused");
        }
        other => panic!("unexpected {:?}", other),
    }
    match graph_on_neighborhood(GraphLoad { user_id: s("u-1") }, Ok(())) {
        GraphNext::LoadName(st, q) => {
            assert_eq!(st.user_id, "u-1");
            assert_eq!(q, DbQuery::UserName { user_id: s("u-1") });
        }
        other => panic!("unexpected {:?}", other),
    }
}

fn row(
    sid: Option<&str>,
    slabel: Option<&str>,
    sname: Option<&str>,
    scode: Option<&str>,
    tid: Option<&str>,
    tlabel: Option<&str>,
    tname: Option<&str>,
    tcode: Option<&str>,
    rel: Option<&str>,
) -> GraphRow {
    GraphRow {
        source_id: sid.map(s),
        source_label: slabel.map(s),
        source_name: sname.map(s),
        source_code: scode.map(s),
        target_id: tid.map(s),
        target_label: tlabel.map(s),
        target_name: tname.map(s),
        target_code: tcode.map(s),
        rel_type: rel.map(s),
    }
}

fn node(id: &str, label: &str, name: &str) -> NeoNode {
    NeoNode { id: s(id), label: s(label), name: s(name) }
}

#[test]
fn empty_graph_holds_the_user() {
    let g = graph_on_rows(&GraphLoad { user_id: s("u-1") }, None, Vec::new());
    assert_eq!(g.nodes, vec![node("u-1", "User", "Me")]);
    assert!(g.links.is_empty());
    let g = graph_on_rows(&GraphLoad { user_id: s("u-1") }, o("alice"), Vec::new());
    assert_eq!(g.nodes, vec![node("u-1", "User", "alice")]);
}

#[test]
fn graph_from_rows() {
    let rows = vec![
        // the user became genesis: user -> system (no name, no code)
        row(Some("u-1"), Some("User"), Some("alice-db"), None, Some("indra_core_genesis_node"), Some("System"), None, None, Some("BECOMES_GENESIS")),
        // the user generated a code: the code node is named by its code
        row(Some("u-1"), Some("User"), Some("alice-db"), None, Some("INA-1"), Some("InviteCode"), None, Some("INA-1"), Some("GENERATED")),
        // bob was invited by the user
        row(Some("u-2"), Some("User"), Some("bob"), None, Some("u-1"), Some("User"), Some("alice-db"), None, Some("INVITED_BY")),
        // a target without a label: no node, but the link stays
        row(Some("u-1"), Some("User"), None, None, Some("x-9"), None, Some("ghost"), None, Some("VOTED_FOR")),
        // no relationship type: nodes but no link
        row(Some("u-3"), Some("User"), Some("carl"), None, Some("u-1"), Some("User"), None, None, None),
    ];
    let g = graph_on_rows(&GraphLoad { user_id: s("u-1") }, o("alice"), rows);
    let mut nodes = g.nodes.clone();
    nodes.sort_by(|a, b| a.id.cmp(&b.id));
    assert_eq!(
        nodes,
        vec![
            node("INA-1", "InviteCode", "INA-1"),
            node("indra_core_genesis_node", "System", "System"),
            node("u-1", "User", "alice"),
            node("u-2", "User", "bob"),
            node("u-3", "User", "carl"),
        ]
    );
    assert_eq!(
        g.links,
        vec![
            NeoLink { source: s("u-1"), target: s("indra_core_genesis_node"), label: s("BECOMES_GENESIS") },
            NeoLink { source: s("u-1"), target: s("INA-1"), label: s("GENERATED") },
            NeoLink { source: s("u-2"), target: s("u-1"), label: s("INVITED_BY") },
            NeoLink { source: s("u-1"), target: s("x-9"), label: s("VOTED_FOR") },
        ]
    );
}

#[test]
fn first_node_under_an_id_wins() {
    let rows = vec![
        row(Some("n"), Some("A"), Some("first"), None, None, None, None, None, None),
        row(Some("n"), Some("B"), Some("second"), None, None, None, None, None, None),
    ];
    let g = graph_on_rows(&GraphLoad { user_id: s("u") }, None, rows);
    assert_eq!(g.nodes.len(), 2);
    assert!(g.nodes.contains(&node("n", "A", "first")));
    assert!(g.links.is_empty());
}

#[test]
fn models_types_and_labels() {
    let u = UserNode { id: s("u"), username: s("a"), password_hash: s("h") };
    assert_eq!(u.get_type(), EntityType::Node);
    assert_eq!(SystemNode { id: s("sys") }.get_type(), EntityType::Node);
    let e = BecomesGenesisEdge { source_user_id: s("u"), target_system_id: s("sys") };
    assert_eq!(e.get_type(), EntityType::Edge);
    assert_eq!(e.label(), "BECOMES_GENESIS");
    let r = UserRegistrationConsensusNode {
        id: s("r"),
        username: s("a"),
        password_hash: s("h"),
        invite_code: s("INA-1"),
        status: s("LOCKED"),
        locked_at: Some(s("2024-01-01")),
        locked_by: Some(s("u")),
    };
    assert_eq!(r.get_type(), EntityType::Node);
    assert_eq!(r.get_id(), "r");
    assert_eq!(r.get_status(), "LOCKED");
    assert_eq!(r.get_locked_at(), Some(&s("2024-01-01")));
    let r2 = UserRegistrationConsensusNode { locked_at: None, ..r };
    assert_eq!(r2.get_locked_at(), None);
}
