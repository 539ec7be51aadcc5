use vstd::prelude::*;

use dashmap::DashMap;

use crate::analyser::Analyser;
use crate::analyser::spec_diagnostics_of;
use crate::analyser::spec_modules_of;
use crate::query::source_tree;
use crate::tree::SyntaxNode;
use crate::tree::SyntaxNodeView;
use crate::tree::node_view;
use crate::types::Diagnostic;
use crate::types::DiagnosticView;
use crate::types::Module;
use crate::types::ModuleView;
use crate::types::diagnostic_views;
use crate::types::module_views;

verus! {

/// One document's cached analysis: the text analysed and the syntax
/// tree, module outline and diagnostics computed from it. A record is
/// only ever created or replaced whole, never partially mutated.
#[derive(Clone, Debug)]
pub struct DocumentData {
    pub text: String,
    pub tree: SyntaxNode,
    pub modules: Vec<Module>,
    pub diagnostics: Vec<Diagnostic>,
}

/// The mathematical value of a document record.
pub struct DocumentDataView {
    pub text: Seq<char>,
    pub tree: SyntaxNodeView,
    pub modules: Seq<ModuleView>,
    pub diagnostics: Seq<DiagnosticView>,
}

impl View for DocumentData {
    type V = DocumentDataView;

    open spec fn view(&self) -> DocumentDataView {
        DocumentDataView {
            text: self.text@,
            tree: node_view(self.tree),
            modules: module_views(self.modules@),
            diagnostics: diagnostic_views(self.diagnostics@),
        }
    }
}

/// The record that analysing a text yields.
pub open spec fn document_record_of(code: Seq<char>) -> DocumentDataView {
    DocumentDataView {
        text: code,
        tree: node_view(source_tree(code)),
        modules: spec_modules_of(code),
        diagnostics: spec_diagnostics_of(code),
    }
}

/// The concurrent mapping from document identity to cached record, the
/// only shared mutable state of the engine. A dashmap::DashMap holds the
/// records, giving independent per-identity slots.
#[verifier::external_body]
pub struct DocumentStore {
    map: DashMap<String, DocumentData>,
}

/// What a store holds: a map from document identity to the value of the
/// record stored under it.
pub uninterp spec fn store_view(s: DocumentStore) -> Map<Seq<char>, DocumentDataView>;

/// The contents of a store that holds no record.
pub open spec fn empty_store_view() -> Map<Seq<char>, DocumentDataView> {
    Map::empty()
}

impl DocumentStore {
    /// Relies on dashmap::DashMap::new: a new store holds no record.
    #[verifier::external_body]
    pub fn new() -> (r: DocumentStore)
        ensures
            store_view(r) == empty_store_view(),
    {
        DocumentStore { map: DashMap::new() }
    }

    /// Relies on dashmap::DashMap::insert: replaces the identity's whole
    /// record in one atomic swap, leaving every other slot unchanged.
    #[verifier::external_body]
    pub fn insert(&mut self, uri: String, doc: DocumentData)
        ensures
            store_view(*final(self)) == store_view(*old(self)).insert(uri@, doc@),
    {
        self.map.insert(uri, doc);
    }

    /// Relies on dashmap::DashMap::get: hands out a snapshot of the
    /// record stored under the identity, if one is stored.
    #[verifier::external_body]
    pub fn get(&self, uri: &String) -> (r: Option<DocumentData>)
        ensures
            match r {
                Option::Some(d) => store_view(*self).contains_key(uri@) && d@ == store_view(
                    *self,
                )[uri@],
                Option::None => !store_view(*self).contains_key(uri@),
            },
    {
        self.map.get(uri).map(|entry| entry.value().clone())
    }

    /// Analyses the text and replaces the identity's record with the
    /// result, so the stored record always matches the text last seen
    /// for that identity.
    pub fn parse_and_store(&mut self, analyser: &Analyser, uri: String, code: String)
        ensures
            store_view(*final(self)) == store_view(*old(self)).insert(
                uri@,
                document_record_of(code@),
            ),
    {
        let (tree, modules, diagnostics) = analyser.parse_file(code.as_str());
        let doc = DocumentData { text: code, tree, modules, diagnostics };
        proof {
            assert(doc@ == document_record_of(doc.text@));
        }
        self.insert(uri, doc);
    }
}

/// Change notifications for two distinct document identities are
/// independent: whichever order the two stores interleave in, each
/// identity ends holding the record stored under it, and the resulting
/// store is the same.
pub proof fn lemma_distinct_documents_independent(
    m: Map<Seq<char>, DocumentDataView>,
    k1: Seq<char>,
    d1: DocumentDataView,
    k2: Seq<char>,
    d2: DocumentDataView,
)
    requires
        k1 != k2,
    ensures
        m.insert(k1, d1).insert(k2, d2)[k1] == d1,
        m.insert(k1, d1).insert(k2, d2)[k2] == d2,
        m.insert(k1, d1).insert(k2, d2) == m.insert(k2, d2).insert(k1, d1),
{
    assert(m.insert(k1, d1).insert(k2, d2) =~= m.insert(k2, d2).insert(k1, d1));
}

/// Per identity, the last write wins: storing a record twice under one
/// identity leaves exactly the second record, as if the first store had
/// never happened.
pub proof fn lemma_last_write_wins(
    m: Map<Seq<char>, DocumentDataView>,
    k: Seq<char>,
    d1: DocumentDataView,
    d2: DocumentDataView,
)
    ensures
        m.insert(k, d1).insert(k, d2)[k] == d2,
        m.insert(k, d1).insert(k, d2) == m.insert(k, d2),
{
    assert(m.insert(k, d1).insert(k, d2) =~= m.insert(k, d2));
}

} // verus!
