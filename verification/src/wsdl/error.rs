use vstd::prelude::*;

verus! {

/// Declares `sxd_document::parser::Error`, the XML parser's report of a
/// structural failure. A value of it is opaque here: it is only carried as
/// the underlying cause of a failed parse.
#[verifier::external_type_specification]
#[verifier::external_body]
pub struct ExDocumentError(sxd_document::parser::Error);

/// Declares `sxd_xpath::Error`, the XPath engine's report of a failed
/// evaluation. A value of it is opaque here: it is only carried as the
/// underlying cause of a failed query.
#[verifier::external_type_specification]
#[verifier::external_body]
pub struct ExXPathError(sxd_xpath::Error);

/// Declares `std::io::Error` so a failure to load source text can be
/// carried as the underlying cause of a construction failure.
#[verifier::external_type_specification]
#[verifier::external_body]
pub struct ExIoError(std::io::Error);

/// An error type for the WSDL module: the only failure vocabulary callers
/// see, each kind wrapping its underlying cause rather than discarding it.
#[derive(Debug)]
pub enum WsdlError {
    /// An error occured while attempting to parse the provided document as XML
    DocumentParseError(sxd_document::parser::Error),

    /// An error that occured while trying to execute an XPath
    XPathError(sxd_xpath::Error),

    /// An I/O error, common cause is a failure to find files
    IoError(std::io::Error),
}

impl From<sxd_document::parser::Error> for WsdlError {
    fn from(e: sxd_document::parser::Error) -> Self {
        WsdlError::DocumentParseError(e)
    }
}

impl vstd::std_specs::convert::FromSpecImpl<sxd_document::parser::Error> for WsdlError {
    open spec fn obeys_from_spec() -> bool {
        true
    }

    open spec fn from_spec(e: sxd_document::parser::Error) -> WsdlError {
        WsdlError::DocumentParseError(e)
    }
}

impl From<sxd_xpath::Error> for WsdlError {
    fn from(e: sxd_xpath::Error) -> Self {
        WsdlError::XPathError(e)
    }
}

impl vstd::std_specs::convert::FromSpecImpl<sxd_xpath::Error> for WsdlError {
    open spec fn obeys_from_spec() -> bool {
        true
    }

    open spec fn from_spec(e: sxd_xpath::Error) -> WsdlError {
        WsdlError::XPathError(e)
    }
}

impl From<std::io::Error> for WsdlError {
    fn from(e: std::io::Error) -> Self {
        WsdlError::IoError(e)
    }
}

impl vstd::std_specs::convert::FromSpecImpl<std::io::Error> for WsdlError {
    open spec fn obeys_from_spec() -> bool {
        true
    }

    open spec fn from_spec(e: std::io::Error) -> WsdlError {
        WsdlError::IoError(e)
    }
}

} // verus!
