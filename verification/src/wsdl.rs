//! Provides WSDL support for the crate.
//!
//! A WSDL document is constructed from raw source text, parsed once, and
//! thereafter read: the parsing pipeline marks the attempt, builds the XML
//! tree, and runs the version-detection heuristic over the tree's
//! root-level elements.

use std::collections::HashMap;
use sxd_document::Package;
use vstd::prelude::*;
use vstd::string::StrSliceExecFns;

mod error;
pub mod xml;

pub use error::WsdlError;
pub use xml::root_query;

verus! {

/// Represents all (hopefully) supported WSDL versions
#[derive(Debug, PartialEq, Eq, Structural)]
pub enum WsdlVersion {
    /// WSDL Version 1.1
    Wsdl11,
    /// WSDL Version 2.0 (aka 1.2)
    Wsdl20,
}

/// Represents a WSDL type definition
#[derive(Debug, PartialEq, Eq)]
pub struct WsdlType {
    name: String,
}

/// A structure to describe what services are available according to the
/// provided WSDL document
pub struct WsdlDocument {
    raw: String,
    package: Option<Package>,

    /// Stores if the document has been parsed
    pub parsed: bool,

    /// Stores the WSDL version
    /// Note: until the document has been parsed, there is no guarentee that
    /// the value stored in this field is correct
    pub version: WsdlVersion,

    /// A collection of all the types specified in the WSDL document
    pub types: HashMap<String, WsdlType>,
}

/// The version the detection heuristic leaves a document with: a root-level
/// element whose local name is "description" forces `Wsdl20`; any other
/// outcome, a failed or non-node-set query included, keeps the version the
/// document held before.
pub open spec fn detected_version(prev: WsdlVersion, tree: Package) -> WsdlVersion {
    if xml::xpath_ok(tree, root_query()) && xml::xpath_node_names(tree, root_query()).contains(
        Some("description"@),
    ) {
        WsdlVersion::Wsdl20
    } else {
        prev
    }
}

/// The version the whole pipeline leaves a successfully parsed document
/// with, as a function of the source text alone: `Wsdl20` exactly when a
/// root-level element of the document parsed from `s` has the local name
/// "description".
pub open spec fn version_of_text(prev: WsdlVersion, s: Seq<char>) -> WsdlVersion {
    if xml::root_names_of_text(s).contains(Some("description"@)) {
        WsdlVersion::Wsdl20
    } else {
        prev
    }
}

impl WsdlDocument {
    /// The source text the document was constructed from.
    pub closed spec fn raw_text(&self) -> Seq<char> {
        self.raw@
    }

    /// Whether a parse attempt has produced the document tree.
    pub closed spec fn has_tree(&self) -> bool {
        self.package is Some
    }

    /// The document tree, for speaking about its contents once it is there.
    pub closed spec fn tree(&self) -> Package {
        self.package->Some_0
    }

    /// Whether a parse attempt has been made: the `parsed` field.
    pub closed spec fn is_parsed(&self) -> bool {
        self.parsed
    }

    /// The detected WSDL version: the `version` field.
    pub closed spec fn spec_version(&self) -> WsdlVersion {
        self.version
    }

    /// The type registry as a mapping: the view of the `types` field.
    pub closed spec fn spec_types(&self) -> Map<String, WsdlType> {
        self.types@
    }

    /// The document's well-formedness: before any parse attempt it is in
    /// its initial state (no tree, the default version, an empty registry),
    /// and a tree is only ever there after an attempt.
    pub closed spec fn wf(&self) -> bool {
        &&& !self.parsed ==> {
            &&& !self.has_tree()
            &&& self.version == WsdlVersion::Wsdl11
            &&& self.types@ == Map::<String, WsdlType>::empty()
        }
        &&& self.has_tree() ==> self.parsed
    }

    /// Hands out the source text the document was constructed from.
    pub fn raw_str(&self) -> (r: &str)
        ensures
            r@ == self.raw_text(),
    {
        self.raw.as_str()
    }

    /// Whether a parse attempt has produced the document tree.
    pub fn tree_present(&self) -> (r: bool)
        ensures
            r == self.has_tree(),
    {
        self.package.is_some()
    }

    /// Creates a new WsdlDocument structure from the raw source text of a
    /// WSDL document. Construction never inspects the text: validation is
    /// deferred entirely to `parse`.
    pub fn new(raw: String) -> (doc: WsdlDocument)
        ensures
            doc.raw_text() == raw@,
            !doc.is_parsed(),
            !doc.has_tree(),
            doc.spec_version() == WsdlVersion::Wsdl11,
            doc.spec_types() == Map::<String, WsdlType>::empty(),
            doc.wf(),
    {
        WsdlDocument {
            raw,
            package: None,
            parsed: false,
            version: WsdlVersion::Wsdl11,
            types: HashMap::new(),
        }
    }

    /// Parses the WSDL document the structure was created with and fills
    /// out the structure's fields to the best of its ability.
    ///
    /// Some special behavior should be noted:
    /// - When determining the WSDL document's version, if there is an error
    ///   or an unsupported value is found, the parser keeps the version the
    ///   document already held, which is 1.1 for a freshly created one
    /// - A repeated call on the same instance is unsupported: parsing is a
    ///   once-per-document step
    pub fn parse(&mut self) -> (r: Result<(), WsdlError>)
        requires
            old(self).wf(),
            !old(self).is_parsed(),
        ensures
            final(self).is_parsed(),
            final(self).raw_text() == old(self).raw_text(),
            final(self).spec_types() == old(self).spec_types(),
            final(self).wf(),
            r is Ok <==> xml::xml_well_formed(old(self).raw_text()),
            final(self).has_tree() <==> r is Ok,
            r matches Err(e) ==> e is DocumentParseError,
            r is Err ==> final(self).spec_version() == old(self).spec_version(),
            r is Ok ==> xml::xpath_ok(final(self).tree(), root_query()),
            r is Ok ==> xml::xpath_node_names(final(self).tree(), root_query())
                == xml::root_names_of_text(old(self).raw_text()),
            r is Ok ==> final(self).spec_version() == detected_version(
                old(self).spec_version(),
                final(self).tree(),
            ),
            r is Ok ==> final(self).spec_version() == version_of_text(
                old(self).spec_version(),
                old(self).raw_text(),
            ),
    {
        self.parsed = true;

        match xml::parse_xml(self.raw.as_str()) {
            Err(e) => Err(WsdlError::DocumentParseError(e)),
            Ok(package) => {
                // Attempt to detect the WSDL version, keeping the default
                // when the query fails or yields no node-set
                let detected_20 = match xml::eval_xpath_names(&package, "/*") {
                    Some(names) => {
                        let found = has_description_root(&names);
                        proof {
                            broadcast use vstd::seq_lib::group_to_multiset_ensures;

                            assert(names.deep_view().contains(Some("description"@))
                                <==> names.deep_view().to_multiset().contains(
                                Some("description"@),
                            ));
                        }
                        found
                    },
                    None => false,
                };
                if detected_20 {
                    self.version = WsdlVersion::Wsdl20;
                }
                self.package = Some(package);
                Ok(())
            },
        }
    }
}

/// Whether some name in `names` is the element local name "description",
/// the root element name that distinguishes a WSDL 2.0 document.
pub fn has_description_root(names: &Vec<Option<String>>) -> (r: bool)
    ensures
        r == names.deep_view().contains(Some("description"@)),
{
    let mut i: usize = 0;
    while i < names.len()
        invariant
            i <= names.len(),
            forall|j: int| 0 <= j < i ==> names.deep_view()[j] != Some("description"@),
        decreases names.len() - i,
    {
        match &names[i] {
            Some(name) => {
                if str_eq(name.as_str(), "description") {
                    assert(names.deep_view()[i as int] == Some("description"@));
                    return true;
                }
            },
            None => {},
        }
        i += 1;
    }
    assert(forall|j: int|
        0 <= j < names.deep_view().len() ==> names.deep_view()[j] != Some("description"@));
    false
}

/// Whether two string slices hold the same characters.
fn str_eq(a: &str, b: &str) -> (r: bool)
    ensures
        r == (a@ == b@),
{
    let a_len = a.unicode_len();
    let b_len = b.unicode_len();
    if a_len != b_len {
        return false;
    }
    let mut i: usize = 0;
    while i < a_len
        invariant
            i <= a_len,
            a_len == a@.len(),
            b_len == b@.len(),
            a_len == b_len,
            forall|j: int| 0 <= j < i ==> a@[j] == b@[j],
        decreases a_len - i,
    {
        if a.get_char(i) != b.get_char(i) {
            return false;
        }
        i += 1;
    }
    proof {
        assert(a@ =~= b@);
    }
    true
}

/// The conservative half of the heuristic: a text none of whose root-level
/// elements is named "description" keeps the version the document held
/// before — the 1.1 default for a freshly constructed one.
pub proof fn lemma_default_version_kept(prev: WsdlVersion, s: Seq<char>)
    requires
        !xml::root_names_of_text(s).contains(Some("description"@)),
    ensures
        version_of_text(prev, s) == prev,
{
}

/// The positive half of the heuristic: a text with a root-level element
/// whose local name is "description" parses to `Wsdl20`, whatever version
/// the document held before.
pub proof fn lemma_description_root_detected(prev: WsdlVersion, s: Seq<char>)
    requires
        xml::root_names_of_text(s).contains(Some("description"@)),
    ensures
        version_of_text(prev, s) == WsdlVersion::Wsdl20,
{
}

} // verus!
