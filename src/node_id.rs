use vstd::prelude::*;

verus! {

/// Namespace index reserved for the well-known built-in nodes.
pub const NS0: u16 = 0;

/// Numeric identifier of the built-in Objects folder.
pub const NS0_OBJECTS_FOLDER: u32 = 85;

/// Numeric identifier of the built-in Organizes reference type.
pub const NS0_ORGANIZES: u32 = 35;

/// Numeric identifier of the built-in FolderType object type.
pub const NS0_FOLDER_TYPE: u32 = 61;

/// Numeric identifier of the built-in BaseDataVariableType variable type.
pub const NS0_BASE_DATA_VARIABLE_TYPE: u32 = 63;

/// Numeric identifier of the built-in Boolean data type.
pub const NS0_BOOLEAN: u32 = 1;

/// Numeric identifier of the built-in Int32 data type.
pub const NS0_INT32: u32 = 6;

/// Numeric identifier of the built-in UInt32 data type.
pub const NS0_UINT32: u32 = 7;

/// Numeric identifier of the built-in String data type.
pub const NS0_STRING: u32 = 12;

/// Identifier part of a node identifier, in one of its two forms.
#[derive(Clone, Debug, PartialEq, Eq)]
pub enum Identifier {
    Numeric(u32),
    String(String),
}

/// Mathematical form of an identifier.
pub enum IdentifierModel {
    Numeric(u32),
    String(Seq<char>),
}

impl View for Identifier {
    type V = IdentifierModel;

    open spec fn view(&self) -> IdentifierModel {
        match self {
            Identifier::Numeric(n) => IdentifierModel::Numeric(*n),
            Identifier::String(s) => IdentifierModel::String(s@),
        }
    }
}

impl Identifier {
    /// Copies the identifier.
    pub fn duplicate(&self) -> (r: Identifier)
        ensures
            r@ == self@,
    {
        match self {
            Identifier::Numeric(n) => Identifier::Numeric(*n),
            Identifier::String(s) => Identifier::String(s.clone()),
        }
    }
}

/// Address of a node in a server's address space: a namespace index and an identifier.
#[derive(Clone, Debug, PartialEq, Eq)]
pub struct NodeId {
    namespace: u16,
    identifier: Identifier,
}

/// Mathematical form of a node identifier.
pub struct NodeIdModel {
    pub namespace: u16,
    pub identifier: IdentifierModel,
}

impl View for NodeId {
    type V = NodeIdModel;

    closed spec fn view(&self) -> NodeIdModel {
        NodeIdModel { namespace: self.namespace, identifier: self.identifier@ }
    }
}

impl NodeId {
    /// Creates a node identifier of numeric form.
    pub fn numeric(namespace: u16, id: u32) -> (r: NodeId)
        ensures
            r@ == (NodeIdModel { namespace, identifier: IdentifierModel::Numeric(id) }),
    {
        NodeId { namespace, identifier: Identifier::Numeric(id) }
    }

    /// Creates a node identifier of string form.
    pub fn string(namespace: u16, id: &str) -> (r: NodeId)
        ensures
            r@ == (NodeIdModel { namespace, identifier: IdentifierModel::String(id@) }),
    {
        NodeId { namespace, identifier: Identifier::String(id.to_owned()) }
    }

    /// Creates a node identifier of numeric form in the built-in namespace.
    pub fn ns0(id: u32) -> (r: NodeId)
        ensures
            r@ == (NodeIdModel { namespace: NS0, identifier: IdentifierModel::Numeric(id) }),
    {
        NodeId::numeric(NS0, id)
    }

    /// Returns the namespace index.
    pub fn namespace_index(&self) -> (r: u16)
        ensures
            r == self@.namespace,
    {
        self.namespace
    }

    /// Returns a copy of the identifier.
    pub fn identifier(&self) -> (r: Identifier)
        ensures
            r@ == self@.identifier,
    {
        self.identifier.duplicate()
    }

    /// Returns the numeric identifier, when the identifier has numeric form.
    pub fn as_numeric(&self) -> (r: Option<u32>)
        ensures
            r == (match self@.identifier {
                IdentifierModel::Numeric(n) => Some(n),
                IdentifierModel::String(_) => None::<u32>,
            }),
    {
        match &self.identifier {
            Identifier::Numeric(n) => Some(*n),
            Identifier::String(_) => None,
        }
    }

    /// Tells whether this is the built-in node of the given numeric identifier.
    pub fn is_ns0(&self, id: u32) -> (r: bool)
        ensures
            r == (self@.namespace == NS0 && self@.identifier == IdentifierModel::Numeric(id)),
    {
        match &self.identifier {
            Identifier::Numeric(n) => self.namespace == NS0 && *n == id,
            Identifier::String(_) => false,
        }
    }

    /// Copies the node identifier.
    pub fn duplicate(&self) -> (r: NodeId)
        ensures
            r@ == self@,
    {
        NodeId { namespace: self.namespace, identifier: self.identifier.duplicate() }
    }
}

/// A node identifier built from a namespace index and an identifier, of either form,
/// reads back as exactly that namespace index and that identifier.
pub proof fn node_id_round_trip(namespace: u16, identifier: IdentifierModel, n: NodeId)
    requires
        n@ == (NodeIdModel { namespace, identifier }),
    ensures
        n@.namespace == namespace,
        n@.identifier == identifier,
{
}

/// Namespace-qualified human-readable name of a node.
#[derive(Clone, Debug, PartialEq, Eq)]
pub struct QualifiedName {
    pub namespace_index: u16,
    pub name: String,
}

impl QualifiedName {
    /// Creates a qualified name.
    pub fn new(namespace_index: u16, name: &str) -> (r: QualifiedName)
        ensures
            r.namespace_index == namespace_index,
            r.name@ == name@,
    {
        QualifiedName { namespace_index, name: name.to_owned() }
    }
}

} // verus!
