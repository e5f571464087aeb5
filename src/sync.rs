use vstd::prelude::*;

use serde_json::Value as SerdeValue;

use crate::json::{Json, JsonV};
use crate::layout::{decode, v0_tag, Layout, LayoutEnvelope, UnknownLayoutVersionError};

verus! {

#[verifier::external_type_specification]
#[verifier::external_body]
pub struct ExPatchOperation(json_patch::PatchOperation);

#[verifier::external_type_specification]
#[verifier::external_body]
pub struct ExJsonValue(SerdeValue);

/// The document that one JSON-Patch operation makes of `doc`, or `None` where
/// the operation fails.
pub uninterp spec fn operation_outcome(doc: JsonV, op: json_patch::PatchOperation) -> Option<JsonV>;

/// The document as serde_json holds it, built with serde_json::Value's
/// variants one for one; only `apply_operation` uses it.
#[verifier::external_body]
fn to_value(j: &Json) -> SerdeValue {
    match j {
        Json::Null => SerdeValue::Null,
        Json::Bool(b) => SerdeValue::Bool(*b),
        Json::Number(n) => SerdeValue::Number(n.clone()),
        Json::Str(s) => SerdeValue::String(s.clone()),
        Json::Array(a) => SerdeValue::Array(a.iter().map(to_value).collect()),
        Json::Object(m) => SerdeValue::Object(
            m.iter().map(|(k, x)| (k.clone(), to_value(x))).collect(),
        ),
    }
}

/// A serde_json::Value read back into plain values, variant for variant; only
/// `apply_operation` uses it.
#[verifier::external_body]
fn from_value(v: &SerdeValue) -> Json {
    match v {
        SerdeValue::Null => Json::Null,
        SerdeValue::Bool(b) => Json::Bool(*b),
        SerdeValue::Number(n) => Json::Number(n.clone()),
        SerdeValue::String(s) => Json::Str(s.clone()),
        SerdeValue::Array(a) => Json::Array(a.iter().map(from_value).collect()),
        SerdeValue::Object(m) => Json::Object(
            m.iter().map(|(k, x)| (k.clone(), from_value(x))).collect(),
        ),
    }
}

/// Relies on json_patch::patch, given one operation: it applies the operation
/// to the document, or fails and leaves it as it was. What it makes of the
/// document depends on the document and the operation alone.
#[verifier::external_body]
fn apply_operation(doc: &Json, op: &json_patch::PatchOperation) -> (r: Option<Json>)
    ensures
        match r {
            Some(d) => operation_outcome(doc@, *op) == Some(d@),
            None => operation_outcome(doc@, *op) is None,
        },
{
    let mut v = to_value(doc);
    match json_patch::patch(&mut v, std::slice::from_ref(op)) {
        Ok(()) => Some(from_value(&v)),
        Err(_) => None,
    }
}

/// The document that a sequence of operations makes of `doc`, applied in
/// order; `None` as soon as one fails.
pub open spec fn apply_ops(doc: JsonV, ops: Seq<json_patch::PatchOperation>) -> Option<JsonV>
    decreases ops.len(),
{
    if ops.len() == 0 {
        Some(doc)
    } else {
        match operation_outcome(doc, ops[0]) {
            Some(d) => apply_ops(d, ops.drop_first()),
            None => None,
        }
    }
}

/// Applying `a` then `b` is applying their concatenation.
pub proof fn lemma_apply_ops_concat(
    doc: JsonV,
    a: Seq<json_patch::PatchOperation>,
    b: Seq<json_patch::PatchOperation>,
)
    ensures
        apply_ops(doc, a + b) == match apply_ops(doc, a) {
            Some(x) => apply_ops(x, b),
            None => None,
        },
    decreases a.len(),
{
    if a.len() == 0 {
        assert(a + b =~= b);
    } else {
        assert((a + b)[0] == a[0]);
        assert((a + b).drop_first() =~= a.drop_first() + b);
        match operation_outcome(doc, a[0]) {
            Some(x) => lemma_apply_ops_concat(x, a.drop_first(), b),
            None => {},
        }
    }
}

/// A patch operation that failed: its position in the patch.
#[derive(Clone, Copy, Debug, PartialEq, Eq, Structural)]
pub struct PatchApplicationError {
    pub operation: usize,
}

/// Applies the operations of a patch in order to a copy of `doc`: either all
/// of them take effect, or the first that fails is reported and `doc` stays as
/// it was.
pub fn apply_patch(doc: &Json, ops: &Vec<json_patch::PatchOperation>) -> (r: Result<
    Json,
    PatchApplicationError,
>)
    ensures
        match r {
            Ok(d) => apply_ops(doc@, ops@) == Some(d@),
            Err(e) => {
                &&& apply_ops(doc@, ops@) is None
                &&& e.operation < ops.len()
                &&& apply_ops(doc@, ops@.take(e.operation as int)) is Some
                &&& operation_outcome(
                    apply_ops(doc@, ops@.take(e.operation as int))->0,
                    ops@[e.operation as int],
                ) is None
            },
        },
{
    let mut cur = doc.copy();
    let mut i: usize = 0;
    assert(ops@.take(0) =~= Seq::<json_patch::PatchOperation>::empty());
    while i < ops.len()
        invariant
            i <= ops.len(),
            apply_ops(doc@, ops@.take(i as int)) == Some(cur@),
        decreases ops.len() - i,
    {
        proof {
            assert(ops@.take(i + 1) =~= ops@.take(i as int) + seq![ops@[i as int]]);
            assert(ops@ =~= ops@.take(i as int) + ops@.skip(i as int));
            lemma_apply_ops_concat(doc@, ops@.take(i as int), seq![ops@[i as int]]);
            lemma_apply_ops_concat(doc@, ops@.take(i as int), ops@.skip(i as int));
            assert(seq![ops@[i as int]].drop_first() =~= Seq::<json_patch::PatchOperation>::empty());
            assert(ops@.skip(i as int)[0] == ops@[i as int]);
        }
        match apply_operation(&cur, &ops[i]) {
            Some(next) => {
                proof {
                    let one = seq![ops@[i as int]];
                    assert(one[0] == ops@[i as int]);
                    assert(apply_ops(next@, one.drop_first()) == Some(next@));
                    assert(apply_ops(cur@, one) == Some(next@));
                }
                cur = next;
            },
            None => {
                return Err(PatchApplicationError { operation: i });
            },
        }
        i = i + 1;
    }
    assert(ops@.take(i as int) =~= ops@);
    Ok(cur)
}

/// A message from the server to the client.
#[derive(Debug)]
pub enum DashboarRx {
    /// Replaces the node tree.
    Layout(Layout),
    /// Replaces the data document.
    DataSnapshot(Json),
    /// JSON-Patch operations for the current data document.
    DataPatch(Vec<json_patch::PatchOperation>),
}

/// Why a message could not be applied.
#[derive(Clone, Copy, Debug, PartialEq, Eq, Structural)]
pub enum ReceiveError {
    /// An operation of a patch failed; the document was left as it was.
    PatchApplication(PatchApplicationError),
    /// A patch came before any snapshot.
    ProtocolOrdering,
}

pub open spec fn document_view(d: Option<Json>) -> Option<JsonV> {
    match d {
        Some(j) => Some(j@),
        None => None,
    }
}

/// The data document after `msg`, given the one before.
pub open spec fn next_document(doc: Option<JsonV>, msg: DashboarRx) -> Option<JsonV> {
    match msg {
        DashboarRx::Layout(_) => doc,
        DashboarRx::DataSnapshot(d) => Some(d@),
        DashboarRx::DataPatch(ops) => match doc {
            None => None,
            Some(d) => match apply_ops(d, ops@) {
                Some(n) => Some(n),
                None => Some(d),
            },
        },
    }
}

/// Whether `msg` is refused, given the data document before it.
pub open spec fn refused(doc: Option<JsonV>, msg: DashboarRx) -> bool {
    match msg {
        DashboarRx::DataPatch(ops) => match doc {
            None => true,
            Some(d) => apply_ops(d, ops@) is None,
        },
        _ => false,
    }
}

/// A snapshot sets the document to its own, whatever came before; applied
/// again at once, it leaves that same document.
pub proof fn snapshot_idempotent(doc: Option<JsonV>, d: Json)
    ensures
        next_document(doc, DashboarRx::DataSnapshot(d)) == Some(d@),
        next_document(
            next_document(doc, DashboarRx::DataSnapshot(d)),
            DashboarRx::DataSnapshot(d),
        ) == Some(d@),
{
}

/// Where operation `k` of a patch fails after the ones before it applied,
/// the patch is refused and the document is exactly what it was: the
/// operations before `k` leave no trace.
pub proof fn failed_patch_is_atomic(d: JsonV, ops: Vec<json_patch::PatchOperation>, k: int)
    requires
        0 <= k < ops.len(),
        apply_ops(d, ops@.take(k)) is Some,
        operation_outcome(apply_ops(d, ops@.take(k))->0, ops@[k]) is None,
    ensures
        refused(Some(d), DashboarRx::DataPatch(ops)),
        next_document(Some(d), DashboarRx::DataPatch(ops)) == Some(d),
{
    let pre = ops@.take(k);
    let post = ops@.skip(k);
    assert(ops@ =~= pre + post);
    lemma_apply_ops_concat(d, pre, post);
    assert(post[0] == ops@[k]);
}

/// After a snapshot, two patches that both apply make the same document as
/// one patch holding the first one's operations followed by the second's.
pub proof fn patches_compose(
    doc: Option<JsonV>,
    d0: Json,
    first: Vec<json_patch::PatchOperation>,
    second: Vec<json_patch::PatchOperation>,
    joined: Vec<json_patch::PatchOperation>,
)
    requires
        joined@ == first@ + second@,
        apply_ops(d0@, first@) is Some,
        apply_ops(apply_ops(d0@, first@)->0, second@) is Some,
    ensures
        next_document(
            next_document(
                next_document(doc, DashboarRx::DataSnapshot(d0)),
                DashboarRx::DataPatch(first),
            ),
            DashboarRx::DataPatch(second),
        ) == next_document(
            next_document(doc, DashboarRx::DataSnapshot(d0)),
            DashboarRx::DataPatch(joined),
        ),
{
    lemma_apply_ops_concat(d0@, first@, second@);
}

/// The client's side of the channel: the node tree and the data document
/// that the messages received so far have made.
#[derive(Debug)]
pub struct Receiver {
    pub layout: Option<Layout>,
    pub document: Option<Json>,
}

impl Receiver {
    /// A receiver on a fresh connection: no layout, no document yet.
    pub fn new() -> (r: Receiver)
        ensures
            r.layout is None,
            r.document is None,
    {
        Receiver { layout: None, document: None }
    }

    /// Applies one message, in the order received.
    pub fn receive(&mut self, msg: DashboarRx) -> (r: Result<(), ReceiveError>)
        ensures
            document_view(final(self).document) == next_document(
                document_view(old(self).document),
                msg,
            ),
            r is Err <==> refused(document_view(old(self).document), msg),
            match msg {
                DashboarRx::Layout(l) => final(self).layout == Some(l),
                _ => final(self).layout == old(self).layout,
            },
            match msg {
                DashboarRx::DataPatch(_) => {
                    &&& old(self).document is None ==> r == Err::<(), ReceiveError>(
                        ReceiveError::ProtocolOrdering,
                    )
                    &&& old(self).document is Some && r is Err ==> r->Err_0 is PatchApplication
                },
                _ => true,
            },
    {
        match msg {
            DashboarRx::Layout(l) => {
                self.layout = Some(l);
                Ok(())
            },
            DashboarRx::DataSnapshot(d) => {
                self.document = Some(d);
                Ok(())
            },
            DashboarRx::DataPatch(ops) => {
                let outcome = match &self.document {
                    None => {
                        return Err(ReceiveError::ProtocolOrdering);
                    },
                    Some(d) => apply_patch(d, &ops),
                };
                match outcome {
                    Ok(n) => {
                        self.document = Some(n);
                        Ok(())
                    },
                    Err(e) => Err(ReceiveError::PatchApplication(e)),
                }
            },
        }
    }

    /// Takes a layout envelope: a known version replaces the node tree; an
    /// unknown one is refused and changes nothing.
    pub fn receive_envelope(&mut self, envelope: LayoutEnvelope) -> (r: Result<
        (),
        UnknownLayoutVersionError,
    >)
        ensures
            final(self).document == old(self).document,
            match r {
                Ok(()) => envelope.version@ == v0_tag() && final(self).layout == Some(Layout::V0(envelope.layout)),
                Err(_) => envelope.version@ != v0_tag() && final(self).layout == old(self).layout,
            },
    {
        match decode(envelope) {
            Ok(l) => {
                self.layout = Some(l);
                Ok(())
            },
            Err(e) => Err(e),
        }
    }
}

} // verus!
