//! The entities of the graph: users, the system node, the genesis edge and
//! registration requests.
use vstd::prelude::*;

verus! {

/// Whether an entity is a node or an edge of the graph.
#[derive(Debug, Clone, Copy, PartialEq, Eq, Structural)]
pub enum EntityType {
    Node,
    Edge,
}

/// An entity of the graph.
pub trait GraphEntity {
    fn get_type(&self) -> EntityType;
}

/// An edge of the graph, with its relationship label.
pub trait Edge: GraphEntity {
    fn label(&self) -> &str;
}

/// A node that takes part in consensus.
pub trait ConsensusNode: GraphEntity {
    fn get_id(&self) -> &str;

    fn get_status(&self) -> &str;

    fn get_locked_at(&self) -> Option<&String>;
}

/// A registered user.
#[derive(Debug, PartialEq, Eq)]
pub struct UserNode {
    pub id: String,
    pub username: String,
    pub password_hash: String,
}

impl GraphEntity for UserNode {
    fn get_type(&self) -> (t: EntityType)
        ensures
            t == EntityType::Node,
    {
        EntityType::Node
    }
}

/// The system node that the genesis user is linked to.
#[derive(Debug, PartialEq, Eq)]
pub struct SystemNode {
    pub id: String,
}

impl GraphEntity for SystemNode {
    fn get_type(&self) -> (t: EntityType)
        ensures
            t == EntityType::Node,
    {
        EntityType::Node
    }
}

/// The edge from the genesis user to the system node.
#[derive(Debug, PartialEq, Eq)]
pub struct BecomesGenesisEdge {
    pub source_user_id: String,
    pub target_system_id: String,
}

impl GraphEntity for BecomesGenesisEdge {
    fn get_type(&self) -> (t: EntityType)
        ensures
            t == EntityType::Edge,
    {
        EntityType::Edge
    }
}

impl Edge for BecomesGenesisEdge {
    fn label(&self) -> (l: &str)
        ensures
            l@ == "BECOMES_GENESIS"@,
    {
        "BECOMES_GENESIS"
    }
}

/// A registration request waiting for consensus.
#[derive(Debug, PartialEq, Eq)]
pub struct UserRegistrationConsensusNode {
    pub id: String,
    pub username: String,
    pub password_hash: String,
    pub invite_code: String,
    pub status: String,
    pub locked_at: Option<String>,
    pub locked_by: Option<String>,
}

impl GraphEntity for UserRegistrationConsensusNode {
    fn get_type(&self) -> (t: EntityType)
        ensures
            t == EntityType::Node,
    {
        EntityType::Node
    }
}

impl ConsensusNode for UserRegistrationConsensusNode {
    fn get_id(&self) -> (r: &str)
        ensures
            r@ == self.id@,
    {
        self.id.as_str()
    }

    fn get_status(&self) -> (r: &str)
        ensures
            r@ == self.status@,
    {
        self.status.as_str()
    }

    fn get_locked_at(&self) -> (r: Option<&String>)
        ensures
            match r {
                Some(s) => self.locked_at == Some(*s),
                None => self.locked_at is None,
            },
    {
        match &self.locked_at {
            Some(s) => Some(s),
            None => None,
        }
    }
}

} // verus!
