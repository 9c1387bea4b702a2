//! The trusted boundary to the XML parser and the XPath engine.
//!
//! Everything the verified logic reads of a parsed document tree is given a
//! name here, and each outside call stands behind a wrapper whose contract
//! speaks over those names.

use vstd::multiset::Multiset;
use vstd::prelude::*;

use sxd_document::Package;

verus! {

/// Declares `sxd_document::Package`, the XML parser's document tree. A
/// value of it is opaque here: what the logic reads of it is named below.
#[verifier::external_type_specification]
#[verifier::external_body]
pub struct ExPackage(Package);

/// The query that selects the root-level nodes of a document tree. It is
/// the only query the boundary admits: the engine's default context
/// registers no namespace prefixes, and a query with a prefixed name test
/// panics inside the engine when it meets an element.
pub open spec fn root_query() -> Seq<char> {
    "/*"@
}

/// Whether `sxd_document::parser::parse` accepts `s` as well-formed XML.
pub uninterp spec fn xml_well_formed(s: Seq<char>) -> bool;

/// What the root query selects on the tree parsed from the text `s`, as
/// `xpath_node_names` reads it. The tree the parser builds is a pure
/// function of the text, so this ties a parsed tree's root-level names to
/// the text it came from.
pub uninterp spec fn root_names_of_text(s: Seq<char>) -> Multiset<Option<Seq<char>>>;

/// Whether evaluating `path` against the tree `p` yields a node-set, rather
/// than an engine error or a scalar value.
pub uninterp spec fn xpath_ok(p: Package, path: Seq<char>) -> bool;

/// What evaluating `path` against the tree `p` selects, each node read as
/// its element local name, or `None` for a node that is no element. The
/// engine hands the nodes out in no fixed order, so only their multiset is
/// named.
pub uninterp spec fn xpath_node_names(p: Package, path: Seq<char>) -> Multiset<Option<Seq<char>>>;

/// Relies on `sxd_document::parser::parse`: it builds the document tree
/// from text, succeeding exactly on well-formed XML. The tree is a pure
/// function of the text, so what the root query selects on it is
/// `root_names_of_text`; and `sxd_xpath` always answers the root query on
/// a built tree with a node-set (the query is valid, prefix-free, and its
/// evaluation has no failure path).
#[verifier::external_body]
pub(crate) fn parse_xml(raw: &str) -> (r: Result<Package, sxd_document::parser::Error>)
    ensures
        r is Ok <==> xml_well_formed(raw@),
        r matches Ok(p) ==> xpath_ok(p, root_query()),
        r matches Ok(p) ==> xpath_node_names(p, root_query()) == root_names_of_text(raw@),
{
    sxd_document::parser::parse(raw)
}

/// Relies on `sxd_xpath::evaluate_xpath` (on `Package::as_document`) for
/// the evaluation, and on `Element::name` with `QName::local_part` to read
/// each selected node: a node-set comes back as one local name per node,
/// `None` for each non-element node; an engine error or a non-node-set
/// value comes back as `None` as a whole. Only the root query is admitted:
/// on any other path the engine's default context, which registers no
/// namespace prefixes, can panic on a prefixed name test.
#[verifier::external_body]
pub(crate) fn eval_xpath_names(pkg: &Package, path: &str) -> (r: Option<Vec<Option<String>>>)
    requires
        path@ == root_query(),
    ensures
        r is Some <==> xpath_ok(*pkg, path@),
        r matches Some(names) ==> names.deep_view().to_multiset() == xpath_node_names(
            *pkg,
            path@,
        ),
{
    match sxd_xpath::evaluate_xpath(&pkg.as_document(), path) {
        Ok(sxd_xpath::Value::Nodeset(nodes)) => Some(nodes.iter().map(|node| match node {
            sxd_xpath::nodeset::Node::Element(e) => Some(e.name().local_part().to_owned()),
            _ => None,
        }).collect()),
        _ => None,
    }
}

} // verus!
