use vstd::prelude::*;

use crate::ui::Ui;

verus! {

/// A versioned layout: the version fixes how the node sequence is read.
#[derive(Debug, PartialEq)]
pub enum Layout {
    V0(Vec<Ui>),
}

/// A layout as it travels: its version tag and its nodes.
#[derive(Debug, PartialEq)]
pub struct LayoutEnvelope {
    pub version: String,
    pub layout: Vec<Ui>,
}

/// A layout whose version tag no receiver here knows.
#[derive(Clone, Debug, PartialEq)]
pub struct UnknownLayoutVersionError {
    pub version: String,
}

/// The tag of the first layout version.
pub open spec fn v0_tag() -> Seq<char> {
    seq!['v', '0']
}

/// The version tag that a layout travels under.
pub open spec fn tag_of(l: Layout) -> Seq<char> {
    match l {
        Layout::V0(_) => v0_tag(),
    }
}

/// The node sequence that a layout carries.
pub open spec fn nodes_of(l: Layout) -> Vec<Ui> {
    match l {
        Layout::V0(nodes) => nodes,
    }
}

/// The layout that a version tag and a node sequence stand for, if the tag is
/// known.
pub open spec fn layout_from(version: Seq<char>, nodes: Vec<Ui>) -> Option<Layout> {
    if version == v0_tag() {
        Some(Layout::V0(nodes))
    } else {
        None
    }
}

/// Writing a layout out under its tag and reading it back gives the same
/// layout, with the same nodes in the same order.
pub proof fn layout_round_trip(nodes: Vec<Ui>)
    ensures
        layout_from(tag_of(Layout::V0(nodes)), nodes_of(Layout::V0(nodes))) == Some(
            Layout::V0(nodes),
        ),
{
}

/// Wraps a node sequence in the current layout version.
pub fn encode(nodes: Vec<Ui>) -> (r: Layout)
    ensures
        r == Layout::V0(nodes),
{
    Layout::V0(nodes)
}

/// Whether a receiver here can read a layout under this version tag.
pub fn is_known_version(tag: &String) -> (r: bool)
    ensures
        r == (tag@ == v0_tag()),
{
    let s = tag.as_str();
    let n = s.unicode_len();
    if n != 2 {
        return false;
    }
    let a = s.get_char(0);
    let b = s.get_char(1);
    let r = a == 'v' && b == '0';
    assert(r ==> tag@ =~= v0_tag());
    r
}

impl Layout {
    /// The layout with its version written out as a tag.
    pub fn to_envelope(self) -> (r: LayoutEnvelope)
        ensures
            r.version@ == tag_of(self),
            r.layout == nodes_of(self),
    {
        match self {
            Layout::V0(nodes) => {
                let version = "v0".to_owned();
                proof {
                    reveal_strlit("v0");
                    assert(version@ =~= v0_tag());
                }
                LayoutEnvelope { version, layout: nodes }
            },
        }
    }
}

/// Reads a layout from its envelope, going by the version tag alone: an unknown
/// tag is refused and its payload left unread.
pub fn decode(envelope: LayoutEnvelope) -> (r: Result<Layout, UnknownLayoutVersionError>)
    ensures
        match layout_from(envelope.version@, envelope.layout) {
            Some(l) => r == Ok::<Layout, UnknownLayoutVersionError>(l),
            None => r is Err && r->Err_0.version@ == envelope.version@,
        },
{
    if is_known_version(&envelope.version) {
        Ok(Layout::V0(envelope.layout))
    } else {
        Err(UnknownLayoutVersionError { version: envelope.version })
    }
}

} // verus!
